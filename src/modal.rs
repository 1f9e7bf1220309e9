use vstd::prelude::*;

use crate::embed::text_len;
use crate::error::{ErrorKind, LimitedAttribute, ModalConversionError};

verus! {

/// Longest custom id of a modal, in UTF-8 bytes.
pub const MAX_CUSTOM_ID_LEN: usize = 100;

/// Most components that a modal may hold.
pub const MAX_COMPONENTS: usize = 5;

/// What a modal holds, as spec values.
pub struct ModalModel<C> {
    pub custom_id: Seq<char>,
    pub title: Seq<char>,
    pub components: Seq<C>,
}

/// A popup form sent in answer to an interaction: an identifier, a title and
/// the components of the form, in order. Components are carried unread.
#[derive(Clone, Debug)]
pub struct Modal<C> {
    custom_id: String,
    title: String,
    components: Vec<C>,
}

impl<C> View for Modal<C> {
    type V = ModalModel<C>;

    closed spec fn view(&self) -> ModalModel<C> {
        ModalModel { custom_id: self.custom_id@, title: self.title@, components: self.components@ }
    }
}

impl<C> Modal<C> {
    /// The custom id.
    pub fn custom_id(&self) -> (r: &String)
        ensures
            r@ == self@.custom_id,
    {
        &self.custom_id
    }

    /// The title.
    pub fn title(&self) -> (r: &String)
        ensures
            r@ == self@.title,
    {
        &self.title
    }

    /// The components, in the order they were added.
    pub fn components(&self) -> (r: &Vec<C>)
        ensures
            r@ == self@.components,
    {
        &self.components
    }
}

impl<C> Default for Modal<C> {
    fn default() -> (m: Modal<C>)
        ensures
            m@.custom_id == Seq::<char>::empty(),
            m@.title == Seq::<char>::empty(),
            m@.components == Seq::<C>::empty(),
    {
        Modal { custom_id: String::new(), title: String::new(), components: Vec::new() }
    }
}

/// The outcome of finishing a modal with the given contents: the first rule
/// that fails, in a fixed order, or success.
pub open spec fn modal_check<C>(m: ModalModel<C>) -> Result<(), ModalConversionError> {
    if m.custom_id.len() == 0 {
        Err(ModalConversionError::MissingCustomId)
    } else if m.title.len() == 0 {
        Err(ModalConversionError::MissingTitle)
    } else if m.components.len() == 0 {
        Err(ModalConversionError::MissingComponents)
    } else if m.components.len() > MAX_COMPONENTS {
        Err(ModalConversionError::TooManyComponents)
    } else {
        Ok(())
    }
}

/// Builds a [`Modal`]; the rules that concern several attributes are checked
/// when it is finished.
#[derive(Clone, Debug)]
pub struct ModalBuilder<C> {
    obj: Modal<C>,
}

impl<C> View for ModalBuilder<C> {
    type V = ModalModel<C>;

    closed spec fn view(&self) -> ModalModel<C> {
        self.obj@
    }
}

impl<C> ModalBuilder<C> {
    /// The modal under construction keeps the builder's limits: a custom id of
    /// at most 100 bytes and at most five components.
    pub open spec fn wf(&self) -> bool {
        text_len(self@.custom_id) <= MAX_CUSTOM_ID_LEN && self@.components.len() <= MAX_COMPONENTS
    }

    /// A builder with an empty custom id, an empty title and no component.
    pub fn new() -> (b: ModalBuilder<C>)
        ensures
            b@.custom_id == Seq::<char>::empty(),
            b@.title == Seq::<char>::empty(),
            b@.components == Seq::<C>::empty(),
            b.wf(),
    {
        proof {
            assert(vstd::utf8::encode_utf8(Seq::<char>::empty()) =~= Seq::<u8>::empty());
        }
        ModalBuilder { obj: Modal::default() }
    }

    /// Sets the custom id. An id over 100 bytes is rejected and the modal is
    /// left as it was.
    pub fn custom_id(&mut self, id: String) -> (r: Result<(), ErrorKind>)
        requires
            old(self).wf(),
        ensures
            final(self).wf(),
            text_len(id@) <= MAX_CUSTOM_ID_LEN ==> r is Ok && final(self)@ == (ModalModel {
                custom_id: id@,
                ..old(self)@
            }),
            text_len(id@) > MAX_CUSTOM_ID_LEN ==> r == Err::<(), ErrorKind>(
                ErrorKind::FieldTooLong {
                    field: LimitedAttribute::ModalCustomId,
                    max: MAX_CUSTOM_ID_LEN,
                    actual: text_len(id@) as usize,
                },
            ) && final(self)@ == old(self)@,
    {
        let len = id.as_str().as_bytes().len();
        if len > MAX_CUSTOM_ID_LEN {
            return Err(
                ErrorKind::FieldTooLong {
                    field: LimitedAttribute::ModalCustomId,
                    max: MAX_CUSTOM_ID_LEN,
                    actual: len,
                },
            );
        }
        self.obj.custom_id = id;
        Ok(())
    }

    /// Sets the title; its length is not limited.
    pub fn title(&mut self, title: String)
        requires
            old(self).wf(),
        ensures
            final(self).wf(),
            final(self)@ == (ModalModel { title: title@, ..old(self)@ }),
    {
        self.obj.title = title;
    }

    /// Appends a component. Where the modal already holds five components the
    /// component is not added, the modal is left as it was, and
    /// `LimitReached` reports it.
    pub fn add_component(&mut self, component: C) -> (r: Result<(), ErrorKind>)
        requires
            old(self).wf(),
        ensures
            final(self).wf(),
            old(self)@.components.len() < MAX_COMPONENTS ==> r is Ok && final(self)@ == (
            ModalModel { components: old(self)@.components.push(component), ..old(self)@ }),
            old(self)@.components.len() >= MAX_COMPONENTS ==> r == Err::<(), ErrorKind>(
                ErrorKind::LimitReached {
                    field: LimitedAttribute::ModalComponents,
                    max: MAX_COMPONENTS,
                },
            ) && final(self)@ == old(self)@,
    {
        if self.obj.components.len() >= MAX_COMPONENTS {
            return Err(
                ErrorKind::LimitReached {
                    field: LimitedAttribute::ModalComponents,
                    max: MAX_COMPONENTS,
                },
            );
        }
        self.obj.components.push(component);
        Ok(())
    }

    /// Finishes the modal. The custom id, the title and the components are
    /// checked in that order, and the first violation is returned.
    pub fn build(self) -> (r: Result<Modal<C>, ModalConversionError>)
        ensures
            (match r {
                Ok(m) => modal_check(self@) is Ok && m@ == self@,
                Err(e) => modal_check(self@) == Err::<(), ModalConversionError>(e),
            }),
    {
        if self.obj.custom_id.as_str().is_empty() {
            return Err(ModalConversionError::MissingCustomId);
        }
        if self.obj.title.as_str().is_empty() {
            return Err(ModalConversionError::MissingTitle);
        }
        if self.obj.components.len() < 1 {
            return Err(ModalConversionError::MissingComponents);
        }
        if self.obj.components.len() > MAX_COMPONENTS {
            return Err(ModalConversionError::TooManyComponents);
        }
        Ok(self.obj)
    }
}

impl<C> Default for ModalBuilder<C> {
    fn default() -> (b: ModalBuilder<C>)
        ensures
            b@.custom_id == Seq::<char>::empty(),
            b@.title == Seq::<char>::empty(),
            b@.components == Seq::<C>::empty(),
            b.wf(),
    {
        ModalBuilder::new()
    }
}

/// A modal whose custom id is empty is rejected with `MissingCustomId`,
/// whatever else it lacks.
pub proof fn lemma_custom_id_checked_first<C>(m: ModalModel<C>)
    requires
        m.custom_id.len() == 0,
    ensures
        modal_check(m) == Err::<(), ModalConversionError>(ModalConversionError::MissingCustomId),
{
}

/// A modal with a custom id and a title is accepted exactly when it holds one
/// to five components; with none it is rejected with `MissingComponents`.
pub proof fn lemma_component_bounds<C>(m: ModalModel<C>)
    requires
        m.custom_id.len() > 0,
        m.title.len() > 0,
    ensures
        modal_check(m) is Ok <==> 1 <= m.components.len() <= MAX_COMPONENTS,
        m.components.len() == 0 ==> modal_check(m) == Err::<(), ModalConversionError>(
            ModalConversionError::MissingComponents,
        ),
{
}

} // verus!
