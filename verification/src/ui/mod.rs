pub mod element;
pub mod image;
pub mod radio;
pub mod textbox;
pub mod richtext;
pub mod label;
pub mod checkbox;
pub mod select;
pub mod editable;
pub mod textedit;
pub mod textinput;
