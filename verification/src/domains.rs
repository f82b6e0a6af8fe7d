pub mod episode;
