//! Rich message content for a chat platform: embeds and modals, assembled by
//! builders that enforce the platform's structural limits, and the platform's
//! packed RGB color encoding.

pub mod color;
pub mod embed;
pub mod error;
pub mod modal;
pub mod time;

pub use color::Color;
pub use embed::{
    Embed, EmbedAuthor, EmbedBuilder, EmbedField, EmbedFooter, EmbedImage, EmbedProvider,
    EmbedThumbnail, EmbedVideo,
};
pub use error::{ErrorKind, LimitedAttribute, ModalConversionError};
pub use modal::{Modal, ModalBuilder};
pub use time::Timestamp;
