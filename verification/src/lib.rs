//! Game, accessibility and notification logic of a set of small iOS demo apps.

pub mod accessibility_bold_text;
pub mod decimal;
pub mod notification;
pub mod preferred_content_size_category;
pub mod game;
pub mod button;
pub mod game_laws;
