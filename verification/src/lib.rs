//! The decisions behind the screens of a flash-card learning app: the card
//! editor, practice sessions, settings forms, and the home and history pages.
use vstd::prelude::*;

pub mod deck_form;
pub mod discard;
pub mod editor;
pub mod editor_state;
pub mod general_settings;
pub mod highlight;
pub mod history;
pub mod home;
pub mod js;
pub mod keyboard;
pub mod link;
pub mod numbers;
pub mod order;
pub mod platform;
pub mod practice;
pub mod save;
pub mod scripts;
pub mod selection;
pub mod session;
pub mod settings;
pub mod tags;
pub mod text;
pub mod writing_tools;

verus! {
} // verus!
