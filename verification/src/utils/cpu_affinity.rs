//! Round-robin assignment of threads to CPU cores.

use vstd::prelude::*;

use crate::utils::text::{
    decimal, joined_by, law_decimal_is_plain, law_decimal_reads_back, law_split_undoes_join,
    parse_usize, split_text, unsigned_value,
};

verus! {

/// Core numbers lie below this limit, the size of a CPU set.
pub const CORE_LIMIT: usize = 1024;

/// Hands out the enabled cores in turn.
pub struct CpuAffinityManager {
    enabled_cores: Vec<usize>,
    last_core_pointer: usize,
}

/// A list of cores that cannot be read.
#[derive(Debug)]
pub enum AffinityError {
    /// The entry `entry` is no core number.
    InvalidCore { entry: String, reason: std::num::ParseIntError },
}

/// The number that an entry of a core list writes.
pub open spec fn core_number(entry: Seq<char>) -> Option<nat> {
    crate::utils::text::bounded_value(entry, usize::MAX as nat)
}

/// Whether an entry of a core list is empty, which is skipped, or a number.
pub open spec fn entry_readable(entry: Seq<char>) -> bool {
    entry.len() == 0 || core_number(entry) is Some
}

/// Whether an entry of a core list names `core`.
pub open spec fn names_core(entry: Seq<char>, core: usize) -> bool {
    entry.len() > 0 && core_number(entry) == Some(core as nat)
}

/// The entries of a comma-separated list of cores.
pub open spec fn entries(cores: Seq<char>) -> Seq<Seq<char>> {
    crate::utils::text::split(cores, ',')
}

/// The cores that one entry enables: each present core with that number.
pub open spec fn entry_cores(entry: Seq<char>, present: Seq<usize>) -> Seq<usize> {
    if entry.len() == 0 {
        seq![]
    } else {
        present.filter(|core: usize| core_number(entry) == Some(core as nat))
    }
}

/// The cores that a list of entries enables, in the order of the entries.
pub open spec fn selected_cores(entries: Seq<Seq<char>>, present: Seq<usize>) -> Seq<usize>
    decreases entries.len(),
{
    if entries.len() == 0 {
        seq![]
    } else {
        selected_cores(entries.drop_last(), present) + entry_cores(entries.last(), present)
    }
}

/// Whether `entry` is the first entry of `entries` that cannot be read.
pub open spec fn first_unreadable(entries: Seq<Seq<char>>, entry: Seq<char>) -> bool {
    exists|i: int|
        #![trigger entries[i]]
        0 <= i < entries.len() && entries[i] == entry && !entry_readable(entry) && (forall|k: int|
            0 <= k < i ==> entry_readable(#[trigger] entries[k]))
}

/// Calls `core_affinity::get_core_ids` and gives the numbers of the cores.
/// Which cores there are depends on the machine. Claims that, as built for
/// Linux with glibc, each number lies below the size of a CPU set.
#[verifier::external_body]
pub(crate) fn get_core_ids() -> (present: Option<Vec<usize>>)
    ensures
        present matches Some(ids) ==> forall|i: int| 0 <= i < ids@.len() ==> #[trigger] ids@[i] < CORE_LIMIT,
{
    core_affinity::get_core_ids().map(|ids| ids.into_iter().map(|core| core.id).collect())
}

/// Calls `core_affinity::set_for_current`, which tries to pin the current
/// thread to the core. Whether that succeeds depends on the machine. A number
/// beyond a CPU set makes it panic, so that is left out.
#[verifier::external_body]
pub(crate) fn set_for_current(core: usize) -> (pinned: bool)
    requires
        core < CORE_LIMIT,
{
    core_affinity::set_for_current(core_affinity::CoreId { id: core })
}

/// Whether the machine has been enumerated as having the cores `present`. One
/// that cannot be enumerated counts as having none.
pub closed spec fn machine_reports(present: Seq<usize>) -> bool {
    exists|ids: Option<Vec<usize>>| #[trigger]
        call_ensures(get_core_ids, (), ids) && present == (match ids {
            Some(listed) => listed@,
            None => seq![],
        })
}

/// Whether the current thread has been asked to be pinned to `core`.
pub closed spec fn pin_asked(core: usize) -> bool {
    exists|pinned: bool| #[trigger] call_ensures(set_for_current, (core,), pinned)
}

impl CpuAffinityManager {
    /// The enabled cores, in the order in which they are handed out.
    pub closed spec fn cores(&self) -> Seq<usize> {
        self.enabled_cores@
    }

    /// The place in [`Self::cores`] of the core that is handed out next.
    pub closed spec fn position(&self) -> nat {
        self.last_core_pointer as nat
    }

    /// The position names a core, if there is any, and all cores can be
    /// pinned to.
    pub open spec fn wf(&self) -> bool {
        &&& self.cores().len() == 0 ==> self.position() == 0
        &&& self.cores().len() > 0 ==> self.position() < self.cores().len()
        &&& forall|i: int| 0 <= i < self.cores().len() ==> #[trigger] self.cores()[i] < CORE_LIMIT
    }

    /// Reads a comma-separated list of cores and enables those that the
    /// machine has.
    pub fn new(cores: &str) -> (made: Result<CpuAffinityManager, AffinityError>)
        ensures
            made is Ok <==> forall|i: int|
                0 <= i < entries(cores@).len() ==> entry_readable(#[trigger] entries(cores@)[i]),
            made matches Ok(manager) ==> manager.wf() && manager.position() == 0 && exists|
                present: Seq<usize>,
            | #[trigger] selected_cores(entries(cores@), present) == manager.cores(),
            made matches Ok(manager) ==> exists|present: Seq<usize>| #[trigger]
                machine_reports(present) && manager.cores() == selected_cores(
                    entries(cores@),
                    present,
                ),
            made matches Err(AffinityError::InvalidCore { entry, .. }) ==> first_unreadable(
                entries(cores@),
                entry@,
            ),
    {
        let present = match get_core_ids() {
            Some(ids) => ids,
            None => Vec::new(),
        };
        assert(machine_reports(present@)) by {
            if !call_ensures(get_core_ids, (), Some(present)) {
                assert(call_ensures(get_core_ids, (), None));
                assert(present@ =~= seq![]);
            }
        }
        CpuAffinityManager::with_present_cores(cores, &present)
    }

    /// Reads a comma-separated list of cores and enables those among
    /// `present`. Empty entries are skipped, and so are the cores that are
    /// not present.
    pub fn with_present_cores(cores: &str, present: &Vec<usize>) -> (made: Result<
        CpuAffinityManager,
        AffinityError,
    >)
        requires
            forall|i: int| 0 <= i < present@.len() ==> #[trigger] present@[i] < CORE_LIMIT,
        ensures
            made is Ok <==> forall|i: int|
                0 <= i < entries(cores@).len() ==> entry_readable(#[trigger] entries(cores@)[i]),
            made matches Ok(manager) ==> manager.wf() && manager.position() == 0
                && manager.cores() == selected_cores(entries(cores@), present@),
            made matches Err(AffinityError::InvalidCore { entry, .. }) ==> first_unreadable(
                entries(cores@),
                entry@,
            ),
    {
        let parts = split_text(cores, ',');
        let ghost all = entries(cores@);
        let mut enabled_cores: Vec<usize> = Vec::new();
        let mut at: usize = 0;
        assert(all.take(0) =~= seq![]);
        while at < parts.len()
            invariant
                0 <= at <= parts@.len(),
                all == parts@.map_values(|part: String| part@),
                all == entries(cores@),
                forall|i: int| 0 <= i < at ==> entry_readable(#[trigger] all[i]),
                forall|i: int| 0 <= i < present@.len() ==> #[trigger] present@[i] < CORE_LIMIT,
                enabled_cores@ == selected_cores(all.take(at as int), present@),
                forall|i: int| 0 <= i < enabled_cores@.len() ==> #[trigger] enabled_cores@[i] < CORE_LIMIT,
            decreases parts@.len() - at,
        {
            let entry = parts[at].as_str();
            let ghost before = enabled_cores@;
            proof {
                assert(all[at as int] == entry@);
                assert(all.take(at + 1).drop_last() =~= all.take(at as int));
                assert(all.take(at + 1).last() == entry@);
            }
            if !entry.is_empty() {
                let number: usize = match parse_usize(entry) {
                    Ok(number) => number,
                    Err(reason) => {
                        return Err(AffinityError::InvalidCore { entry: entry.to_owned(), reason });
                    },
                };
                let mut i: usize = 0;
                let ghost matching = |core: usize| core_number(entry@) == Some(core as nat);
                proof {
                    assert(present@.take(0) =~= seq![]);
                    reveal(Seq::filter);
                    assert(before + present@.take(0).filter(matching) =~= before);
                }
                while i < present.len()
                    invariant
                        0 <= i <= present@.len(),
                        core_number(entry@) == Some(number as nat),
                        matching == (|core: usize| core_number(entry@) == Some(core as nat)),
                        forall|k: int| 0 <= k < present@.len() ==> #[trigger] present@[k] < CORE_LIMIT,
                        enabled_cores@ == before + present@.take(i as int).filter(matching),
                        forall|k: int|
                            0 <= k < enabled_cores@.len() ==> #[trigger] enabled_cores@[k] < CORE_LIMIT,
                    decreases present@.len() - i,
                {
                    proof {
                        reveal(Seq::filter);
                        assert(present@.take(i + 1).drop_last() =~= present@.take(i as int));
                    }
                    if present[i] == number {
                        enabled_cores.push(present[i]);
                    }
                    assert(enabled_cores@ =~= before + present@.take(i + 1).filter(matching));
                    i = i + 1;
                }
                assert(present@.take(i as int) =~= present@);
            } else {
                assert(enabled_cores@ + Seq::<usize>::empty() =~= enabled_cores@);
            }
            at = at + 1;
        }
        assert(all.take(at as int) =~= all);
        Ok(CpuAffinityManager { enabled_cores, last_core_pointer: 0 })
    }

    /// Takes the core that is next in turn, if any core is enabled.
    pub fn next_core(&mut self) -> (core: Option<usize>)
        requires
            old(self).wf(),
        ensures
            final(self).wf(),
            final(self).cores() == old(self).cores(),
            final(self).position() == next_position(old(self).position(), old(self).cores().len()),
            old(self).cores().len() == 0 ==> core is None,
            old(self).cores().len() > 0 ==> core == Some(
                old(self).cores()[old(self).position() as int],
            ),
    {
        if self.enabled_cores.len() > 0 {
            let core = self.enabled_cores[self.last_core_pointer];
            if self.last_core_pointer == self.enabled_cores.len() - 1 {
                self.last_core_pointer = 0;
            } else {
                self.last_core_pointer = self.last_core_pointer + 1;
            }
            Some(core)
        } else {
            None
        }
    }

    /// Pins the current thread to the core that is next in turn, if any core
    /// is enabled.
    pub fn set_affinity(&mut self)
        requires
            old(self).wf(),
        ensures
            final(self).wf(),
            final(self).cores() == old(self).cores(),
            final(self).position() == next_position(old(self).position(), old(self).cores().len()),
            old(self).cores().len() > 0 ==> pin_asked(
                old(self).cores()[old(self).position() as int],
            ),
    {
        match self.next_core() {
            Some(core) => {
                let pinned: bool = set_for_current(core);
                assert(call_ensures(set_for_current, (core,), pinned));
            },
            None => {},
        }
    }
}

/// The cores that the machine is said to have are those that enumerating them
/// gave, and a thread is said to have been asked to be pinned only where it
/// was.
pub(crate) proof fn law_machine_is_taken_as_it_is(present: Seq<usize>, core: usize)
    ensures
        machine_reports(present) <==> exists|ids: Option<Vec<usize>>| #[trigger]
            call_ensures(get_core_ids, (), ids) && present == (match ids {
                Some(listed) => listed@,
                None => seq![],
            }),
        pin_asked(core) <==> exists|pinned: bool| #[trigger]
            call_ensures(set_for_current, (core,), pinned),
{
}

/// The enabled cores are exactly the present cores that the list names.
pub proof fn law_enabled_cores_are_named_and_present(
    entries: Seq<Seq<char>>,
    present: Seq<usize>,
    core: usize,
)
    ensures
        selected_cores(entries, present).contains(core) <==> present.contains(core) && exists|i: int|
            0 <= i < entries.len() && names_core(#[trigger] entries[i], core),
    decreases entries.len(),
{
    if entries.len() > 0 {
        let front = entries.drop_last();
        let last = entries.last();
        law_enabled_cores_are_named_and_present(front, present, core);
        lemma_kept_by_filter(present, |c: usize| core_number(last) == Some(c as nat), core);
        let head = selected_cores(front, present);
        let tail = entry_cores(last, present);
        assert(tail.contains(core) <==> present.contains(core) && names_core(last, core));
        assert((head + tail).contains(core) <==> head.contains(core) || tail.contains(core)) by {
            if head.contains(core) {
                let k = head.index_of(core);
                assert((head + tail)[k] == core);
            }
            if tail.contains(core) {
                let k = tail.index_of(core);
                assert((head + tail)[head.len() + k] == core);
            }
        }
        assert((exists|i: int| 0 <= i < entries.len() && names_core(#[trigger] entries[i], core))
            <==> names_core(last, core) || (exists|i: int|
            0 <= i < front.len() && names_core(#[trigger] front[i], core))) by {
            if names_core(last, core) {
                assert(names_core(entries[entries.len() - 1], core));
            }
            if exists|i: int| 0 <= i < front.len() && names_core(#[trigger] front[i], core) {
                let i = choose|i: int| 0 <= i < front.len() && names_core(#[trigger] front[i], core);
                assert(names_core(entries[i], core));
            }
            if exists|i: int| 0 <= i < entries.len() && names_core(#[trigger] entries[i], core) {
                let i = choose|i: int|
                    0 <= i < entries.len() && names_core(#[trigger] entries[i], core);
                if i < front.len() {
                    assert(names_core(front[i], core));
                }
            }
        }
    }
}

/// An entry can be read exactly if it is empty or writes a number that fits,
/// whether or not the machine has such a core.
pub proof fn law_entries_are_numerals(entry: Seq<char>)
    ensures
        entry_readable(entry) <==> entry.len() == 0 || (unsigned_value(entry) matches Some(number)
            && number <= usize::MAX),
{
}

/// The entry that a list is refused for is the one before which all can be
/// read.
pub proof fn law_refusal_names_first_bad_entry(
    entries: Seq<Seq<char>>,
    i: int,
    entry: Seq<char>,
)
    requires
        0 <= i < entries.len(),
        !entry_readable(entries[i]),
        forall|k: int| 0 <= k < i ==> entry_readable(#[trigger] entries[k]),
    ensures
        first_unreadable(entries, entry) <==> entry == entries[i],
{
    if first_unreadable(entries, entry) {
        let j = choose|j: int|
            #![trigger entries[j]]
            0 <= j < entries.len() && entries[j] == entry && !entry_readable(entry) && (forall|
                k: int,
            | 0 <= k < j ==> entry_readable(#[trigger] entries[k]));
        assert(entry_readable(entries[i]) || j <= i);
        assert(i == j);
    }
}

/// A comma-separated list of core numbers.
pub open spec fn core_list(numbers: Seq<usize>) -> Seq<char> {
    joined_by(numbers.map_values(|number: usize| decimal(number as nat)), ',')
}

/// A list of cores that the machine has can be read and enables exactly those
/// cores, in the order of the list and as often as it names them.
pub proof fn law_listed_cores_are_enabled(numbers: Seq<usize>, present: Seq<usize>)
    requires
        numbers.len() > 0,
        present.no_duplicates(),
        forall|i: int| 0 <= i < numbers.len() ==> present.contains(#[trigger] numbers[i]),
    ensures
        forall|i: int|
            0 <= i < entries(core_list(numbers)).len() ==> entry_readable(
                #[trigger] entries(core_list(numbers))[i],
            ),
        selected_cores(entries(core_list(numbers)), present) == numbers,
{
    let parts = numbers.map_values(|number: usize| decimal(number as nat));
    assert forall|i: int| 0 <= i < parts.len() implies !(#[trigger] parts[i]).contains(',') by {
        law_decimal_is_plain(numbers[i] as nat);
    }
    law_split_undoes_join(parts, ',');
    assert forall|i: int| 0 <= i < parts.len() implies entry_readable(#[trigger] parts[i]) by {
        law_decimal_reads_back(numbers[i] as nat);
    }
    lemma_decimals_select(numbers, present);
}

/// Entries that write numbers of present cores select those cores in order.
proof fn lemma_decimals_select(numbers: Seq<usize>, present: Seq<usize>)
    requires
        present.no_duplicates(),
        forall|i: int| 0 <= i < numbers.len() ==> present.contains(#[trigger] numbers[i]),
    ensures
        selected_cores(numbers.map_values(|number: usize| decimal(number as nat)), present)
            == numbers,
    decreases numbers.len(),
{
    let parts = numbers.map_values(|number: usize| decimal(number as nat));
    if numbers.len() > 0 {
        let front = numbers.drop_last();
        let last = numbers.last();
        assert forall|i: int| 0 <= i < front.len() implies present.contains(#[trigger] front[i]) by {
            assert(front[i] == numbers[i]);
        }
        lemma_decimals_select(front, present);
        assert(parts.drop_last() =~= front.map_values(|number: usize| decimal(number as nat)));
        law_decimal_reads_back(last as nat);
        law_decimal_is_plain(last as nat);
        let keep = |core: usize| core_number(decimal(last as nat)) == Some(core as nat);
        assert(numbers[numbers.len() - 1] == last);
        lemma_filter_of_one(present, keep, last);
        assert(entry_cores(parts.last(), present) =~= seq![last]);
        assert(front + seq![last] =~= numbers);
    } else {
        assert(selected_cores(parts, present) =~= numbers);
    }
}

/// A filter that keeps one element of a sequence without duplicates keeps it
/// once.
proof fn lemma_filter_of_one(all: Seq<usize>, keep: spec_fn(usize) -> bool, x: usize)
    requires
        all.no_duplicates(),
        forall|y: usize| #[trigger] keep(y) <==> y == x,
    ensures
        all.filter(keep) == (if all.contains(x) {
            seq![x]
        } else {
            seq![]
        }),
    decreases all.len(),
{
    reveal(Seq::filter);
    if all.len() > 0 {
        let front = all.drop_last();
        lemma_filter_of_one(front, keep, x);
        if front.contains(x) {
            let i = front.index_of(x);
            assert(all[i] == x && all[i] != all.last());
        }
        if all.contains(x) && all.last() != x {
            assert(front[all.index_of(x)] == x);
        }
        if all.last() == x {
            assert(all[all.len() - 1] == x);
        }
        assert(Seq::<usize>::empty().push(x) =~= seq![x]);
    } else {
        assert(all.filter(keep) =~= seq![]);
    }
}

/// Lists that follow one another enable what each of them does, in turn, and an
/// empty entry enables nothing.
pub proof fn law_lists_add_up(first: Seq<Seq<char>>, second: Seq<Seq<char>>, present: Seq<usize>)
    ensures
        selected_cores(first + second, present) == selected_cores(first, present)
            + selected_cores(second, present),
        selected_cores(seq![Seq::<char>::empty()], present).len() == 0,
    decreases second.len(),
{
    reveal_with_fuel(selected_cores, 2);
    if second.len() == 0 {
        assert(first + second =~= first);
        assert(selected_cores(first, present) + selected_cores(second, present) =~= selected_cores(
            first,
            present,
        ));
    } else {
        law_lists_add_up(first, second.drop_last(), present);
        assert((first + second).drop_last() =~= first + second.drop_last());
        assert((first + second).last() == second.last());
        assert(selected_cores(first + second, present) =~= selected_cores(first, present)
            + selected_cores(second, present));
    }
}

/// A filter keeps exactly the elements that it is meant to keep.
proof fn lemma_kept_by_filter(all: Seq<usize>, keep: spec_fn(usize) -> bool, x: usize)
    ensures
        all.filter(keep).contains(x) <==> all.contains(x) && keep(x),
    decreases all.len(),
{
    reveal(Seq::filter);
    if all.len() > 0 {
        let front = all.drop_last();
        let kept = front.filter(keep);
        lemma_kept_by_filter(front, keep, x);
        assert(all.contains(x) <==> front.contains(x) || all.last() == x) by {
            if front.contains(x) {
                assert(all[front.index_of(x)] == x);
            }
            if all.contains(x) && all.last() != x {
                assert(front[all.index_of(x)] == x);
            }
        }
        assert(kept.push(all.last()).contains(x) <==> kept.contains(x) || all.last() == x) by {
            if kept.contains(x) {
                assert(kept.push(all.last())[kept.index_of(x)] == x);
            }
            assert(kept.push(all.last())[kept.len() as int] == all.last());
        }
    }
}

/// The position that follows `position` in a round of `count` cores.
pub open spec fn next_position(position: nat, count: nat) -> nat {
    if position + 1 < count {
        position + 1
    } else {
        0
    }
}

/// The position after `turns` turns.
pub open spec fn position_after(position: nat, count: nat, turns: nat) -> nat
    decreases turns,
{
    if turns == 0 {
        position
    } else {
        next_position(position_after(position, count, (turns - 1) as nat), count)
    }
}

/// Turns go round: from a fresh manager, the core that is handed out after
/// `turns` others is the one at `turns` modulo the number of enabled cores.
pub proof fn law_round_robin(count: nat, turns: nat)
    requires
        count > 0,
    ensures
        position_after(0, count, turns) == turns % count,
    decreases turns,
{
    if turns > 0 {
        law_round_robin(count, (turns - 1) as nat);
        let before = (turns - 1) as nat;
        assert(turns % count == next_position(before % count, count)) by (nonlinear_arith)
            requires
                count > 0,
                turns == before + 1,
                next_position(before % count, count) == (if before % count + 1 < count {
                    before % count + 1
                } else {
                    0
                }),
        ;
    } else {
        assert(0nat % count == 0) by (nonlinear_arith)
            requires
                count > 0,
        ;
    }
}

/// A list of cores is taken by the cores that the machine reports: a core is
/// enabled exactly if it is reported and an entry of the list names it.
pub proof fn law_machine_decides_enabled_cores(
    cores: &str,
    made: Result<CpuAffinityManager, AffinityError>,
)
    requires
        call_ensures(CpuAffinityManager::new, (cores,), made),
        made is Ok,
    ensures
        made->Ok_0.position() == 0,
        exists|present: Seq<usize>| #[trigger]
            machine_reports(present) && made->Ok_0.cores() == selected_cores(
                entries(cores@),
                present,
            ) && forall|core: usize|
                made->Ok_0.cores().contains(core) <==> present.contains(core) && exists|i: int|
                    0 <= i < entries(cores@).len() && names_core(#[trigger] entries(cores@)[i], core),
{
    let enabled = made->Ok_0.cores();
    let present = choose|present: Seq<usize>| #[trigger]
        machine_reports(present) && enabled == selected_cores(entries(cores@), present);
    assert forall|core: usize|
        enabled.contains(core) <==> present.contains(core) && exists|i: int|
            0 <= i < entries(cores@).len() && names_core(#[trigger] entries(cores@)[i], core) by {
        law_enabled_cores_are_named_and_present(entries(cores@), present, core);
    }
    assert(machine_reports(present));
}

/// A list of cores that are all present is taken and enables them in its order.
pub proof fn law_list_of_present_cores_is_taken(
    numbers: Seq<usize>,
    cores: &str,
    present: Vec<usize>,
    made: Result<CpuAffinityManager, AffinityError>,
)
    requires
        call_ensures(CpuAffinityManager::with_present_cores, (cores, &present), made),
        numbers.len() > 0,
        cores@ == core_list(numbers),
        present@.no_duplicates(),
        forall|i: int| 0 <= i < present@.len() ==> #[trigger] present@[i] < CORE_LIMIT,
        forall|i: int| 0 <= i < numbers.len() ==> present@.contains(#[trigger] numbers[i]),
    ensures
        made is Ok,
        made->Ok_0.position() == 0,
        made->Ok_0.cores() == numbers,
{
    law_listed_cores_are_enabled(numbers, present@);
}

/// The core whose turn it is is handed out, or a thread is asked to be pinned
/// to it. The turn passes to the next, and after the last to the first.
pub proof fn law_turns_are_taken(
    manager: &mut CpuAffinityManager,
    core: Option<usize>,
    pinning: &mut CpuAffinityManager,
)
    requires
        call_ensures(CpuAffinityManager::next_core, (manager,), core),
        old(manager).wf(),
        call_ensures(CpuAffinityManager::set_affinity, (pinning,), ()),
        old(pinning).wf(),
    ensures
        core is None <==> old(manager).cores().len() == 0,
        core is Some ==> core->0 == old(manager).cores()[old(manager).position() as int],
        core is Some ==> final(manager).position() == (old(manager).position() + 1) % old(
            manager).cores().len(),
        final(manager).cores() == old(manager).cores(),
        old(pinning).cores().len() > 0 ==> pin_asked(
            old(pinning).cores()[old(pinning).position() as int],
        ) && final(pinning).position() == (old(pinning).position() + 1) % old(
            pinning).cores().len(),
        final(pinning).cores() == old(pinning).cores(),
{
    if old(manager).cores().len() > 0 {
        lemma_next_position_is_modulo(old(manager).position(), old(manager).cores().len());
    }
    if old(pinning).cores().len() > 0 {
        lemma_next_position_is_modulo(old(pinning).position(), old(pinning).cores().len());
    }
}

/// The next position is one on, or the first after the last.
proof fn lemma_next_position_is_modulo(position: nat, count: nat)
    requires
        position < count,
    ensures
        next_position(position, count) == (position + 1) % count,
{
    assert((position + 1) % count == (if position + 1 < count {
        position + 1
    } else {
        0
    })) by (nonlinear_arith)
        requires
            position < count,
    ;
}

} // verus!
