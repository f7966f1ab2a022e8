//! The scheduling and account logic of a game-night organising service:
//! date polls and how they are finalised, invitations and passphrases,
//! login tokens, registration, and the small view models that pages use.

pub mod origins;
pub mod text;
pub mod grouping;
pub mod sorting;
pub mod clock;
pub mod defaults;
pub mod validation;

pub mod users;
pub mod answer;
pub mod poll;
pub mod new_poll;
pub mod calendar;
pub mod open_poll;
pub mod close_poll;
pub mod finalize;
pub mod emails;
pub mod capacity;
pub mod archive;
pub mod play;

pub mod passphrase;
pub mod invitation;
pub mod tokens;
pub mod login;
pub mod autologin;
pub mod register;
pub mod profile;
pub mod push;
pub mod templating;
