use vstd::prelude::*;
use vstd::utf8::encode_utf8;

use crate::color::{default_color, packed_color, Color};
use crate::error::{ErrorKind, LimitedAttribute};
use crate::time::Timestamp;

verus! {

/// Longest embed title, in UTF-8 bytes.
pub const MAX_TITLE_LEN: usize = 256;

/// Longest footer text, in UTF-8 bytes.
pub const MAX_FOOTER_TEXT_LEN: usize = 2048;

/// Longest field name, in UTF-8 bytes.
pub const MAX_FIELD_NAME_LEN: usize = 256;

/// Longest field value, in UTF-8 bytes.
pub const MAX_FIELD_VALUE_LEN: usize = 1024;

/// Most fields that the builder lets an embed hold.
pub const MAX_FIELDS: usize = 25;

/// The length of a text as the platform counts it: its UTF-8 bytes.
pub open spec fn text_len(s: Seq<char>) -> nat {
    encode_utf8(s).len()
}

/// The view of an optional text.
pub open spec fn opt_view(o: Option<String>) -> Option<Seq<char>> {
    match o {
        Some(s) => Some(s@),
        None => None,
    }
}

/// The length of a string in UTF-8 bytes.
fn byte_len(s: &String) -> (r: usize)
    ensures
        r == text_len(s@),
{
    s.as_str().as_bytes().len()
}

/// A rich content block attached to a message. Every attribute is optional.
#[derive(Clone, Debug, PartialEq)]
pub struct Embed {
    /// Title of the embed
    pub title: Option<String>,
    /// Description of the embed
    pub description: Option<String>,
    /// Url of the embed
    pub url: Option<String>,
    /// Timestamp of the embed content
    pub timestamp: Option<Timestamp>,
    /// Color of the embed, packed into 24 bits
    pub color: Option<u32>,
    /// Footer information
    pub footer: Option<EmbedFooter>,
    /// Image information
    pub image: Option<EmbedImage>,
    /// Thumbnail information
    pub thumbnail: Option<EmbedThumbnail>,
    /// Video information
    pub video: Option<EmbedVideo>,
    /// Provider information
    pub provider: Option<EmbedProvider>,
    /// Author information
    pub author: Option<EmbedAuthor>,
    /// Fields of the embed, in the order they are shown
    pub fields: Option<Vec<EmbedField>>,
}

/// The fields of an embed as a sequence; an absent list is empty.
pub open spec fn fields_of(e: Embed) -> Seq<EmbedField> {
    match e.fields {
        Some(v) => v@,
        None => Seq::empty(),
    }
}

/// The fields after one call of `add_field`: the new field is appended unless
/// the list already holds 25.
pub open spec fn added_field(cur: Seq<EmbedField>, f: EmbedField) -> Seq<EmbedField> {
    if cur.len() < MAX_FIELDS {
        cur.push(f)
    } else {
        cur
    }
}

/// The fields after a call of `add_field` for each of `fs`, in order.
pub open spec fn added_fields(cur: Seq<EmbedField>, fs: Seq<EmbedField>) -> Seq<EmbedField>
    decreases fs.len(),
{
    if fs.len() == 0 {
        cur
    } else {
        added_fields(added_field(cur, fs[0]), fs.drop_first())
    }
}

/// An embed with every attribute absent but the color, which is the default
/// color packed.
pub open spec fn is_default_embed(e: Embed) -> bool {
    &&& e.title is None
    &&& e.description is None
    &&& e.url is None
    &&& e.timestamp is None
    &&& e.color == Some(packed_color(default_color()))
    &&& e.footer is None
    &&& e.image is None
    &&& e.thumbnail is None
    &&& e.video is None
    &&& e.provider is None
    &&& e.author is None
    &&& e.fields is None
}

impl Default for Embed {
    fn default() -> (e: Embed)
        ensures
            is_default_embed(e),
    {
        Embed {
            title: None,
            description: None,
            url: None,
            timestamp: None,
            color: Some(Color::default().to_packed()),
            footer: None,
            image: None,
            thumbnail: None,
            video: None,
            provider: None,
            author: None,
            fields: None,
        }
    }
}

/// A thumbnail of an embed.
#[derive(Clone, Debug, PartialEq)]
pub struct EmbedThumbnail {
    /// Url of the thumbnail
    pub url: Option<String>,
    /// Proxied url of the thumbnail
    pub proxy_url: Option<String>,
    /// Height of the image
    pub height: Option<u32>,
    /// Width of the image
    pub width: Option<u32>,
}

impl Default for EmbedThumbnail {
    fn default() -> (t: EmbedThumbnail)
        ensures
            t.url is None && t.proxy_url is None && t.height is None && t.width is None,
    {
        EmbedThumbnail { url: None, proxy_url: None, height: None, width: None }
    }
}

impl EmbedThumbnail {
    /// Sets the url of the thumbnail.
    pub fn url(&mut self, url: String)
        ensures
            *final(self) == (EmbedThumbnail { url: Some(url), ..*old(self) }),
    {
        self.url = Some(url);
    }

    /// Sets a proxied url for the thumbnail.
    pub fn proxy_url(&mut self, url: String)
        ensures
            *final(self) == (EmbedThumbnail { proxy_url: Some(url), ..*old(self) }),
    {
        self.proxy_url = Some(url);
    }

    /// Sets the height and the width of the thumbnail.
    pub fn dimensions(&mut self, height: u32, width: u32)
        ensures
            *final(self) == (EmbedThumbnail {
                height: Some(height),
                width: Some(width),
                ..*old(self)
            }),
    {
        self.height = Some(height);
        self.width = Some(width);
    }
}

/// Video information of an embed.
#[derive(Clone, Debug, PartialEq)]
pub struct EmbedVideo {
    /// Url of the video
    pub url: String,
    /// Proxied url of the video
    pub proxy_url: String,
    /// Height of the video
    pub height: i32,
    /// Width of the video
    pub width: i32,
}

/// Image information of an embed.
#[derive(Clone, Debug, PartialEq)]
pub struct EmbedImage {
    /// Url of the image
    pub url: String,
    /// Proxied url of the image
    pub proxy_url: Option<String>,
    /// Height of the image
    pub height: i32,
    /// Width of the image
    pub width: i32,
}

impl Default for EmbedImage {
    fn default() -> (i: EmbedImage)
        ensures
            i.url@.len() == 0 && i.proxy_url is None && i.height == 0 && i.width == 0,
    {
        EmbedImage { url: String::new(), proxy_url: None, height: 0, width: 0 }
    }
}

/// Provider information of an embed.
#[derive(Clone, Debug, PartialEq)]
pub struct EmbedProvider {
    /// Name of the provider
    pub name: String,
    /// Url of the provider
    pub url: String,
}

/// The author of an embed.
#[derive(Clone, Debug, PartialEq)]
pub struct EmbedAuthor {
    /// Name of the author
    pub name: Option<String>,
    /// Url of the author
    pub url: Option<String>,
    /// Url of the author icon (http(s) and attachments only)
    pub icon_url: Option<String>,
    /// A proxied url of the author icon
    pub proxy_icon_url: Option<String>,
}

impl Default for EmbedAuthor {
    fn default() -> (a: EmbedAuthor)
        ensures
            a.name is None && a.url is None && a.icon_url is None && a.proxy_icon_url is None,
    {
        EmbedAuthor { name: None, url: None, icon_url: None, proxy_icon_url: None }
    }
}

impl EmbedAuthor {
    /// Sets the author name.
    pub fn name(&mut self, name: String)
        ensures
            *final(self) == (EmbedAuthor { name: Some(name), ..*old(self) }),
    {
        self.name = Some(name);
    }

    /// Sets the url that users can click on.
    pub fn url(&mut self, url: String)
        ensures
            *final(self) == (EmbedAuthor { url: Some(url), ..*old(self) }),
    {
        self.url = Some(url);
    }

    /// Sets the url of the author icon.
    pub fn icon_url(&mut self, url: String)
        ensures
            *final(self) == (EmbedAuthor { icon_url: Some(url), ..*old(self) }),
    {
        self.icon_url = Some(url);
    }

    /// Sets the proxied url of the author icon.
    pub fn proxy_url(&mut self, url: String)
        ensures
            *final(self) == (EmbedAuthor { proxy_icon_url: Some(url), ..*old(self) }),
    {
        self.proxy_icon_url = Some(url);
    }
}

/// What a footer holds, as spec values.
pub struct FooterModel {
    pub text: Seq<char>,
    pub icon_url: Option<Seq<char>>,
    pub proxy_icon_url: Option<Seq<char>>,
}

/// The footer of an embed. Its text is at most 2048 bytes long.
#[derive(Debug, PartialEq)]
pub struct EmbedFooter {
    text: String,
    icon_url: Option<String>,
    proxy_icon_url: Option<String>,
}

impl View for EmbedFooter {
    type V = FooterModel;

    closed spec fn view(&self) -> FooterModel {
        FooterModel {
            text: self.text@,
            icon_url: opt_view(self.icon_url),
            proxy_icon_url: opt_view(self.proxy_icon_url),
        }
    }
}

impl EmbedFooter {
    #[verifier::type_invariant]
    spec fn text_within_limit(&self) -> bool {
        text_len(self.text@) <= MAX_FOOTER_TEXT_LEN
    }

    /// The footer's text is within its limit; every footer keeps it.
    pub open spec fn wf(&self) -> bool {
        text_len(self@.text) <= MAX_FOOTER_TEXT_LEN
    }
}

impl Clone for EmbedFooter {
    fn clone(&self) -> (r: EmbedFooter)
        ensures
            r@ == self@,
    {
        proof {
            use_type_invariant(self);
        }
        EmbedFooter {
            text: self.text.clone(),
            icon_url: self.icon_url.clone(),
            proxy_icon_url: self.proxy_icon_url.clone(),
        }
    }
}

impl Default for EmbedFooter {
    fn default() -> (f: EmbedFooter)
        ensures
            f@.text == Seq::<char>::empty(),
            f@.icon_url is None,
            f@.proxy_icon_url is None,
            f.wf(),
    {
        EmbedFooter { text: String::new(), icon_url: None, proxy_icon_url: None }
    }
}

impl EmbedFooter {
    /// Sets the footer text. A text over 2048 bytes is rejected and the
    /// footer is left as it was.
    pub fn text(&mut self, text: String) -> (r: Result<(), ErrorKind>)
        ensures
            text_len(text@) <= MAX_FOOTER_TEXT_LEN ==> r is Ok && final(self)@ == (FooterModel {
                text: text@,
                ..old(self)@
            }),
            text_len(text@) > MAX_FOOTER_TEXT_LEN ==> r == Err::<(), ErrorKind>(
                ErrorKind::FieldTooLong {
                    field: LimitedAttribute::FooterText,
                    max: MAX_FOOTER_TEXT_LEN,
                    actual: text_len(text@) as usize,
                },
            ) && *final(self) == *old(self),
            old(self).wf(),
            final(self).wf(),
    {
        proof {
            use_type_invariant(&*self);
        }
        let len = byte_len(&text);
        if len > MAX_FOOTER_TEXT_LEN {
            return Err(
                ErrorKind::FieldTooLong {
                    field: LimitedAttribute::FooterText,
                    max: MAX_FOOTER_TEXT_LEN,
                    actual: len,
                },
            );
        }
        self.text = text;
        Ok(())
    }

    /// Sets the url of the footer icon.
    pub fn icon_url(&mut self, url: String)
        ensures
            final(self)@ == (FooterModel { icon_url: Some(url@), ..old(self)@ }),
            old(self).wf(),
            final(self).wf(),
    {
        proof {
            use_type_invariant(&*self);
        }
        self.icon_url = Some(url);
    }

    /// Sets the proxied url of the footer icon.
    pub fn proxy_url(&mut self, url: String)
        ensures
            final(self)@ == (FooterModel { proxy_icon_url: Some(url@), ..old(self)@ }),
            old(self).wf(),
            final(self).wf(),
    {
        proof {
            use_type_invariant(&*self);
        }
        self.proxy_icon_url = Some(url);
    }

    /// The footer text.
    pub fn footer_text(&self) -> (r: &String)
        ensures
            r@ == self@.text,
    {
        &self.text
    }

    /// The url of the footer icon, where one was set.
    pub fn footer_icon_url(&self) -> (r: &Option<String>)
        ensures
            opt_view(*r) == self@.icon_url,
    {
        &self.icon_url
    }

    /// The proxied url of the footer icon, where one was set.
    pub fn footer_proxy_icon_url(&self) -> (r: &Option<String>)
        ensures
            opt_view(*r) == self@.proxy_icon_url,
    {
        &self.proxy_icon_url
    }
}

/// What a field holds, as spec values.
pub struct FieldModel {
    pub name: Seq<char>,
    pub value: Seq<char>,
    pub inline: Option<bool>,
}

/// A field of an embed: a name of at most 256 bytes, a value of at most 1024
/// bytes, and whether it is shown inline.
#[derive(Debug, PartialEq)]
pub struct EmbedField {
    name: String,
    value: String,
    inline: Option<bool>,
}

impl View for EmbedField {
    type V = FieldModel;

    closed spec fn view(&self) -> FieldModel {
        FieldModel { name: self.name@, value: self.value@, inline: self.inline }
    }
}

impl EmbedField {
    #[verifier::type_invariant]
    spec fn within_limits(&self) -> bool {
        text_len(self.name@) <= MAX_FIELD_NAME_LEN && text_len(self.value@) <= MAX_FIELD_VALUE_LEN
    }

    /// The field's name and value are within their limits; every field keeps
    /// them.
    pub open spec fn wf(&self) -> bool {
        text_len(self@.name) <= MAX_FIELD_NAME_LEN && text_len(self@.value) <= MAX_FIELD_VALUE_LEN
    }
}

impl Clone for EmbedField {
    fn clone(&self) -> (r: EmbedField)
        ensures
            r@ == self@,
    {
        proof {
            use_type_invariant(self);
        }
        EmbedField { name: self.name.clone(), value: self.value.clone(), inline: self.inline }
    }
}

impl Default for EmbedField {
    fn default() -> (f: EmbedField)
        ensures
            f@.name == Seq::<char>::empty(),
            f@.value == Seq::<char>::empty(),
            f@.inline is None,
            f.wf(),
    {
        EmbedField { value: String::new(), name: String::new(), inline: None }
    }
}

impl EmbedField {
    /// Sets the field name. A name over 256 bytes is rejected and the field
    /// is left as it was.
    pub fn name(&mut self, name: String) -> (r: Result<(), ErrorKind>)
        ensures
            text_len(name@) <= MAX_FIELD_NAME_LEN ==> r is Ok && final(self)@ == (FieldModel {
                name: name@,
                ..old(self)@
            }),
            text_len(name@) > MAX_FIELD_NAME_LEN ==> r == Err::<(), ErrorKind>(
                ErrorKind::FieldTooLong {
                    field: LimitedAttribute::FieldName,
                    max: MAX_FIELD_NAME_LEN,
                    actual: text_len(name@) as usize,
                },
            ) && *final(self) == *old(self),
            old(self).wf(),
            final(self).wf(),
    {
        proof {
            use_type_invariant(&*self);
        }
        let len = byte_len(&name);
        if len > MAX_FIELD_NAME_LEN {
            return Err(
                ErrorKind::FieldTooLong {
                    field: LimitedAttribute::FieldName,
                    max: MAX_FIELD_NAME_LEN,
                    actual: len,
                },
            );
        }
        self.name = name;
        Ok(())
    }

    /// Sets the field value. A value over 1024 bytes is rejected and the
    /// field is left as it was.
    pub fn value(&mut self, text: String) -> (r: Result<(), ErrorKind>)
        ensures
            text_len(text@) <= MAX_FIELD_VALUE_LEN ==> r is Ok && final(self)@ == (FieldModel {
                value: text@,
                ..old(self)@
            }),
            text_len(text@) > MAX_FIELD_VALUE_LEN ==> r == Err::<(), ErrorKind>(
                ErrorKind::FieldTooLong {
                    field: LimitedAttribute::FieldValue,
                    max: MAX_FIELD_VALUE_LEN,
                    actual: text_len(text@) as usize,
                },
            ) && *final(self) == *old(self),
            old(self).wf(),
            final(self).wf(),
    {
        proof {
            use_type_invariant(&*self);
        }
        let len = byte_len(&text);
        if len > MAX_FIELD_VALUE_LEN {
            return Err(
                ErrorKind::FieldTooLong {
                    field: LimitedAttribute::FieldValue,
                    max: MAX_FIELD_VALUE_LEN,
                    actual: len,
                },
            );
        }
        self.value = text;
        Ok(())
    }

    /// Sets whether the field is shown inline.
    pub fn inline(&mut self, inline: bool)
        ensures
            final(self)@ == (FieldModel { inline: Some(inline), ..old(self)@ }),
            old(self).wf(),
            final(self).wf(),
    {
        proof {
            use_type_invariant(&*self);
        }
        self.inline = Some(inline);
    }

    /// The field name.
    pub fn field_name(&self) -> (r: &String)
        ensures
            r@ == self@.name,
    {
        &self.name
    }

    /// The field value.
    pub fn field_value(&self) -> (r: &String)
        ensures
            r@ == self@.value,
    {
        &self.value
    }

    /// Whether the field is shown inline, where that was set.
    pub fn is_inline(&self) -> (r: Option<bool>)
        ensures
            r == self@.inline,
    {
        self.inline
    }
}

/// Builds an [`Embed`] one attribute at a time, checking the platform's
/// limits on each call.
#[derive(Clone, Debug, PartialEq)]
pub struct EmbedBuilder {
    obj: Embed,
}

impl View for EmbedBuilder {
    type V = Embed;

    closed spec fn view(&self) -> Embed {
        self.obj
    }
}

impl EmbedBuilder {
    /// The embed under construction keeps the platform's limits: a title of
    /// at most 256 bytes, a footer within its limit, and at most 25 fields,
    /// each within its limits.
    pub open spec fn wf(&self) -> bool {
        &&& fields_of(self@).len() <= MAX_FIELDS
        &&& forall|i: int| 0 <= i < fields_of(self@).len() ==> (#[trigger] fields_of(self@)[i]).wf()
        &&& self@.title matches Some(t) ==> text_len(t@) <= MAX_TITLE_LEN
        &&& self@.footer matches Some(f) ==> f.wf()
    }

    /// A builder that starts from the default embed.
    pub fn new() -> (b: EmbedBuilder)
        ensures
            is_default_embed(b@),
            b.wf(),
    {
        EmbedBuilder { obj: Embed::default() }
    }

    /// Sets the title. A title over 256 bytes is rejected and the embed is
    /// left as it was.
    pub fn title(&mut self, title: String) -> (r: Result<(), ErrorKind>)
        requires
            old(self).wf(),
        ensures
            final(self).wf(),
            text_len(title@) <= MAX_TITLE_LEN ==> r is Ok && final(self)@ == (Embed {
                title: Some(title),
                ..old(self)@
            }),
            text_len(title@) > MAX_TITLE_LEN ==> r == Err::<(), ErrorKind>(
                ErrorKind::FieldTooLong {
                    field: LimitedAttribute::EmbedTitle,
                    max: MAX_TITLE_LEN,
                    actual: text_len(title@) as usize,
                },
            ) && *final(self) == *old(self),
    {
        let len = byte_len(&title);
        if len > MAX_TITLE_LEN {
            return Err(
                ErrorKind::FieldTooLong {
                    field: LimitedAttribute::EmbedTitle,
                    max: MAX_TITLE_LEN,
                    actual: len,
                },
            );
        }
        self.obj.title = Some(title);
        Ok(())
    }

    /// Sets the description; its length is not limited.
    pub fn description(&mut self, description: String)
        requires
            old(self).wf(),
        ensures
            final(self).wf(),
            final(self)@ == (Embed { description: Some(description), ..old(self)@ }),
    {
        self.obj.description = Some(description);
    }

    /// Sets the url of the title.
    pub fn url(&mut self, url: &str)
        requires
            old(self).wf(),
        ensures
            final(self).wf(),
            final(self)@.url matches Some(u) && u@ == url@,
            final(self)@ == (Embed { url: final(self)@.url, ..old(self)@ }),
    {
        self.obj.url = Some(url.to_owned());
    }

    /// Sets the color, packed into 24 bits.
    pub fn color(&mut self, color: u32)
        requires
            old(self).wf(),
        ensures
            final(self).wf(),
            final(self)@ == (Embed { color: Some(color), ..old(self)@ }),
    {
        self.obj.color = Some(color);
    }

    /// Sets the timestamp.
    pub fn timestamp(&mut self, timestamp: Timestamp)
        requires
            old(self).wf(),
        ensures
            final(self).wf(),
            final(self)@ == (Embed { timestamp: Some(timestamp), ..old(self)@ }),
    {
        self.obj.timestamp = Some(timestamp);
    }

    /// Sets the footer.
    pub fn footer(&mut self, footer: EmbedFooter)
        requires
            old(self).wf(),
        ensures
            final(self).wf(),
            final(self)@ == (Embed { footer: Some(footer), ..old(self)@ }),
    {
        proof {
            use_type_invariant(&footer);
        }
        self.obj.footer = Some(footer);
    }

    /// Sets the author.
    pub fn author(&mut self, author: EmbedAuthor)
        requires
            old(self).wf(),
        ensures
            final(self).wf(),
            final(self)@ == (Embed { author: Some(author), ..old(self)@ }),
    {
        self.obj.author = Some(author);
    }

    /// Sets the image.
    pub fn image(&mut self, image: EmbedImage)
        requires
            old(self).wf(),
        ensures
            final(self).wf(),
            final(self)@ == (Embed { image: Some(image), ..old(self)@ }),
    {
        self.obj.image = Some(image);
    }

    /// Sets the thumbnail.
    pub fn thumbnail(&mut self, thumbnail: EmbedThumbnail)
        requires
            old(self).wf(),
        ensures
            final(self).wf(),
            final(self)@ == (Embed { thumbnail: Some(thumbnail), ..old(self)@ }),
    {
        self.obj.thumbnail = Some(thumbnail);
    }

    /// Appends a field. Where the embed already holds 25 fields the field is
    /// not added, the embed is left as it was, and `LimitReached` reports it.
    pub fn add_field(&mut self, field: EmbedField) -> (r: Result<(), ErrorKind>)
        requires
            old(self).wf(),
        ensures
            final(self).wf(),
            fields_of(final(self)@) == added_field(fields_of(old(self)@), field),
            fields_of(old(self)@).len() < MAX_FIELDS ==> r is Ok && fields_of(final(self)@)
                == fields_of(old(self)@).push(field) && final(self)@.fields is Some
                && final(self)@ == (Embed { fields: final(self)@.fields, ..old(self)@ }),
            fields_of(old(self)@).len() >= MAX_FIELDS ==> r == Err::<(), ErrorKind>(
                ErrorKind::LimitReached { field: LimitedAttribute::EmbedFields, max: MAX_FIELDS },
            ) && *final(self) == *old(self),
    {
        proof {
            use_type_invariant(&field);
        }
        match &mut self.obj.fields {
            None => {
                let mut v: Vec<EmbedField> = Vec::new();
                v.push(field);
                self.obj.fields = Some(v);
                Ok(())
            },
            Some(f) => {
                if f.len() >= MAX_FIELDS {
                    Err(
                        ErrorKind::LimitReached {
                            field: LimitedAttribute::EmbedFields,
                            max: MAX_FIELDS,
                        },
                    )
                } else {
                    f.push(field);
                    Ok(())
                }
            },
        }
    }

    /// The embed as accumulated so far.
    pub fn embed(&self) -> (r: &Embed)
        ensures
            *r == self@,
    {
        &self.obj
    }

    /// Hands out the accumulated embed; the same as [`EmbedBuilder::build`].
    pub fn finish(self) -> (e: Embed)
        ensures
            e == self@,
    {
        self.obj
    }

    /// Hands out the accumulated embed. An embed has no required attribute,
    /// so this cannot fail.
    pub fn build(self) -> (e: Embed)
        ensures
            e == self@,
    {
        self.obj
    }
}

impl Default for EmbedBuilder {
    fn default() -> (b: EmbedBuilder)
        ensures
            is_default_embed(b@),
            b.wf(),
    {
        EmbedBuilder::new()
    }
}

/// Adding fields one after another keeps them in the order they were added,
/// up to 25 fields; every field beyond that is left out.
pub proof fn lemma_added_fields_in_order(cur: Seq<EmbedField>, fs: Seq<EmbedField>)
    requires
        cur.len() <= MAX_FIELDS,
    ensures
        added_fields(cur, fs) == (cur + fs).take(
            if cur.len() + fs.len() <= MAX_FIELDS {
                (cur.len() + fs.len()) as int
            } else {
                MAX_FIELDS as int
            },
        ),
    decreases fs.len(),
{
    if fs.len() > 0 {
        let next = added_field(cur, fs[0]);
        let rest = fs.drop_first();
        lemma_added_fields_in_order(next, rest);
        if cur.len() < MAX_FIELDS {
            assert(next + rest =~= cur + fs);
        } else {
            assert((cur + rest).take(MAX_FIELDS as int) =~= cur);
            assert((cur + fs).take(MAX_FIELDS as int) =~= cur);
        }
    } else {
        assert((cur + fs).take(cur.len() as int) =~= cur);
    }
}

/// Setting the description twice leaves only the second value, whatever the
/// lengths of the two texts; the other attributes are those before both calls.
pub proof fn lemma_description_last_wins(e: Embed, first: String, second: String)
    ensures
        (Embed { description: Some(second), ..(Embed { description: Some(first), ..e }) }) == (
        Embed { description: Some(second), ..e }),
{
}

} // verus!
