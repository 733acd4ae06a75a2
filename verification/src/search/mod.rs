pub mod ripgrep;
