pub mod audio;
