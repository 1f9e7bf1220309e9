use vstd::prelude::*;

verus! {

/// The attributes whose size the platform limits.
#[derive(Clone, Copy, Debug, PartialEq, Eq, Structural)]
pub enum LimitedAttribute {
    /// The title of an embed
    EmbedTitle,
    /// The text of an embed footer
    FooterText,
    /// The name of an embed field
    FieldName,
    /// The value of an embed field
    FieldValue,
    /// The list of fields of an embed
    EmbedFields,
    /// The custom id of a modal
    ModalCustomId,
    /// The list of components of a modal
    ModalComponents,
}

/// Why a mutating call on a builder or a value was rejected. A rejected call
/// leaves what was accumulated before it unchanged.
#[derive(Clone, Copy, Debug, PartialEq, Eq, Structural)]
pub enum ErrorKind {
    /// A text is longer, in UTF-8 bytes, than its attribute allows.
    FieldTooLong { field: LimitedAttribute, max: usize, actual: usize },
    /// A list already holds as many items as its attribute allows; the item
    /// was not added. This is the warning-level outcome of a count limit.
    LimitReached { field: LimitedAttribute, max: usize },
}

/// Why a modal could not be finished. The checks run in the order of the
/// variants and the first one that fails is reported.
#[derive(Clone, Copy, Debug, PartialEq, Eq, Structural)]
pub enum ModalConversionError {
    /// The custom id is empty.
    MissingCustomId,
    /// The title is empty.
    MissingTitle,
    /// The modal has no component; it needs at least one.
    MissingComponents,
    /// The modal has more than five components.
    TooManyComponents,
}

/// The human-readable message of each modal error.
pub open spec fn modal_error_message(e: ModalConversionError) -> Seq<char> {
    match e {
        ModalConversionError::MissingCustomId => "Missing a custom id for modal!"@,
        ModalConversionError::MissingTitle => "Missing a title for modal!"@,
        ModalConversionError::MissingComponents => "Modal does not contain any components!"@,
        ModalConversionError::TooManyComponents => "Modal contains too much components!"@,
    }
}

impl ModalConversionError {
    /// The fixed human-readable message of this error.
    pub fn message(&self) -> (r: &'static str)
        ensures
            r@ == modal_error_message(*self),
    {
        match self {
            ModalConversionError::MissingCustomId => "Missing a custom id for modal!",
            ModalConversionError::MissingTitle => "Missing a title for modal!",
            ModalConversionError::MissingComponents => "Modal does not contain any components!",
            ModalConversionError::TooManyComponents => "Modal contains too much components!",
        }
    }
}

} // verus!
