//! Logic of two Telegram bots that file what their maintainer sends them
//! into a markdown "second brain".  The note bot files a text message as one
//! note, with a nested item for each text link; the link bot files one note
//! per URL written out in a message, and saves photos.  The library decides
//! what to do with a message, finds the titles of links, and writes the
//! notes; the programs around it talk to Telegram, the web and the disk.

pub mod bot;
pub mod brain;
pub mod listing;
pub mod markdown;
pub mod number;
pub mod seeding;
pub mod text;
pub mod title;
pub mod url_handler;
