pub mod calendar;
pub mod cli;
pub mod font;
pub mod text;
pub mod timing;
pub mod tui;
pub mod widgets;
