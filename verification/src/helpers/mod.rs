pub mod maps;
