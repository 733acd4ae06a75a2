pub mod layout;
pub mod preview_text;
pub mod view;
pub mod tree_rows;
pub mod dialogs;
pub mod bars;
pub mod clock;
