pub mod cpu_affinity;
pub mod text;
