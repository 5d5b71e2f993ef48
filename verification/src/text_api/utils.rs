pub mod markdown;
