use chat_embed::embed::MAX_FIELDS;
use chat_embed::{
    Color, Embed, EmbedAuthor, EmbedBuilder, EmbedField, EmbedFooter, EmbedImage,
    EmbedThumbnail, ErrorKind, LimitedAttribute, Timestamp,
};

fn text_of(n: usize) -> String {
    "a".repeat(n)
}

fn field_named(name: &str) -> EmbedField {
    let mut f = EmbedField::default();
    f.name(name.to_string()).unwrap();
    f.value(format!("value of {}", name)).unwrap();
    f
}

#[test]
fn title_of_256_bytes_is_accepted() {
    let mut b = EmbedBuilder::new();
    assert_eq!(b.title(text_of(256)), Ok(()));
    assert_eq!(b.embed().title, Some(text_of(256)));
}

#[test]
fn title_of_257_bytes_is_rejected_and_state_kept() {
    let mut b = EmbedBuilder::new();
    b.title("kept".to_string()).unwrap();
    let before = b.embed().clone();
    assert_eq!(
        b.title(text_of(257)),
        Err(ErrorKind::FieldTooLong { field: LimitedAttribute::EmbedTitle, max: 256, actual: 257 })
    );
    assert_eq!(b.embed(), &before);
    assert_eq!(b.embed().title, Some("kept".to_string()));
}

#[test]
fn title_length_counts_bytes() {
    let mut b = EmbedBuilder::new();
    // 128 two-byte characters make 256 bytes; one more makes 258.
    assert_eq!(b.title("é".repeat(128)), Ok(()));
    assert_eq!(
        b.title("é".repeat(129)),
        Err(ErrorKind::FieldTooLong { field: LimitedAttribute::EmbedTitle, max: 256, actual: 258 })
    );
}

#[test]
fn twenty_five_fields_are_kept_in_order_and_the_next_is_refused() {
    let mut b = EmbedBuilder::new();
    for i in 0..25 {
        assert_eq!(b.add_field(field_named(&format!("f{}", i))), Ok(()));
    }
    assert_eq!(
        b.add_field(field_named("extra")),
        Err(ErrorKind::LimitReached { field: LimitedAttribute::EmbedFields, max: 25 })
    );
    let e = b.build();
    let fields = e.fields.unwrap();
    assert_eq!(fields.len(), MAX_FIELDS);
    for (i, f) in fields.iter().enumerate() {
        assert_eq!(f.field_name(), &format!("f{}", i));
        assert_eq!(f.field_value(), &format!("value of f{}", i));
    }
}

#[test]
fn first_field_creates_the_list() {
    let mut b = EmbedBuilder::new();
    assert_eq!(b.embed().fields, None);
    b.add_field(field_named("one")).unwrap();
    assert_eq!(b.embed().fields.as_ref().map(|v| v.len()), Some(1));
}

#[test]
fn footer_text_of_2048_bytes_is_accepted() {
    let mut f = EmbedFooter::default();
    assert_eq!(f.text(text_of(2048)), Ok(()));
    assert_eq!(f.footer_text(), &text_of(2048));
}

#[test]
fn footer_text_of_2049_bytes_is_rejected() {
    let mut f = EmbedFooter::default();
    f.text("short".to_string()).unwrap();
    assert_eq!(
        f.text(text_of(2049)),
        Err(ErrorKind::FieldTooLong { field: LimitedAttribute::FooterText, max: 2048, actual: 2049 })
    );
    assert_eq!(f.footer_text(), "short");
}

#[test]
fn footer_urls_do_not_touch_text() {
    let mut f = EmbedFooter::default();
    f.text("t".to_string()).unwrap();
    f.icon_url("https://icon".to_string());
    f.proxy_url("https://proxy".to_string());
    assert_eq!(f.footer_text(), "t");
}

#[test]
fn field_name_and_value_limits() {
    let mut f = EmbedField::default();
    assert_eq!(f.name(text_of(256)), Ok(()));
    assert_eq!(
        f.name(text_of(257)),
        Err(ErrorKind::FieldTooLong { field: LimitedAttribute::FieldName, max: 256, actual: 257 })
    );
    assert_eq!(f.field_name(), &text_of(256));
    assert_eq!(f.value(text_of(1024)), Ok(()));
    assert_eq!(
        f.value(text_of(1025)),
        Err(ErrorKind::FieldTooLong { field: LimitedAttribute::FieldValue, max: 1024, actual: 1025 })
    );
    assert_eq!(f.field_value(), &text_of(1024));
}

#[test]
fn field_default_and_inline() {
    let mut f = EmbedField::default();
    assert_eq!(f.field_name(), "");
    assert_eq!(f.field_value(), "");
    assert_eq!(f.is_inline(), None);
    f.inline(true);
    assert_eq!(f.is_inline(), Some(true));
}

#[test]
fn default_embed_has_only_the_default_color() {
    let e = Embed::default();
    assert_eq!(e.title, None);
    assert_eq!(e.description, None);
    assert_eq!(e.url, None);
    assert_eq!(e.timestamp, None);
    assert_eq!(e.color, Some(Color::default().to_packed()));
    assert_eq!(e.color, Some(0xdea584));
    assert!(e.footer.is_none());
    assert!(e.image.is_none());
    assert!(e.thumbnail.is_none());
    assert!(e.video.is_none());
    assert!(e.provider.is_none());
    assert!(e.author.is_none());
    assert!(e.fields.is_none());
    assert_eq!(EmbedBuilder::default().build(), e);
}

#[test]
fn description_twice_keeps_the_last() {
    let mut b = EmbedBuilder::new();
    b.description("first".to_string());
    b.description(text_of(10_000));
    assert_eq!(b.embed().description, Some(text_of(10_000)));
    b.description("second".to_string());
    let e = b.finish();
    assert_eq!(e.description, Some("second".to_string()));
    assert_eq!(e.title, None);
}

#[test]
fn unconstrained_setters_set_their_attribute() {
    let mut b = EmbedBuilder::new();
    b.url("https://example.com");
    b.color(Color { red: 1, green: 2, blue: 3 }.to_packed());
    let ts = Timestamp::from_unix(1431648000, 0).unwrap();
    b.timestamp(ts);
    let mut footer = EmbedFooter::default();
    footer.text("foot".to_string()).unwrap();
    b.footer(footer.clone());
    let mut author = EmbedAuthor::default();
    author.name("me".to_string());
    author.url("https://me".to_string());
    author.icon_url("https://me/icon".to_string());
    author.proxy_url("https://proxy/me".to_string());
    b.author(author.clone());
    let image = EmbedImage { url: "https://img".to_string(), ..EmbedImage::default() };
    b.image(image.clone());
    let mut thumb = EmbedThumbnail::default();
    thumb.url("https://thumb".to_string());
    b.thumbnail(thumb.clone());
    let e = b.build();
    assert_eq!(e.url, Some("https://example.com".to_string()));
    assert_eq!(e.color, Some(0x010203));
    assert_eq!(e.timestamp, Some(ts));
    assert_eq!(e.footer, Some(footer));
    assert_eq!(author.name, Some("me".to_string()));
    assert_eq!(author.proxy_icon_url, Some("https://proxy/me".to_string()));
    assert_eq!(e.author, Some(author));
    assert_eq!(e.image, Some(image));
    assert_eq!(e.thumbnail, Some(thumb));
}

#[test]
fn thumbnail_setters() {
    let mut t = EmbedThumbnail::default();
    t.url("https://a".to_string());
    t.proxy_url("https://b".to_string());
    t.dimensions(64, 128);
    assert_eq!(t.url, Some("https://a".to_string()));
    assert_eq!(t.proxy_url, Some("https://b".to_string()));
    assert_eq!(t.height, Some(64));
    assert_eq!(t.width, Some(128));
}

#[test]
fn timestamp_accepts_instants_chrono_can_hold() {
    let ts = Timestamp::from_unix(1431648000, 500).unwrap();
    assert_eq!(ts.secs(), 1431648000);
    assert_eq!(ts.nanos(), 500);
    assert!(Timestamp::from_unix(59, 1_500_000_000).is_some());
}

#[test]
fn timestamp_rejects_what_chrono_cannot_hold() {
    assert_eq!(Timestamp::from_unix(0, 2_000_000_000), None);
    assert_eq!(Timestamp::from_unix(0, 1_500_000_000), None);
    assert_eq!(Timestamp::from_unix(i64::MAX, 0), None);
    assert_eq!(Timestamp::from_unix(i64::MIN, 0), None);
}

#[test]
fn timestamp_leap_second_only_at_end_of_minute() {
    assert!(Timestamp::from_unix(0, 0).is_some());
    assert!(Timestamp::from_unix(-1, 1_999_999_999).is_some());
    assert_eq!(Timestamp::from_unix(58, 1_000_000_000), None);
    assert!(Timestamp::from_unix(8_000_000_000_000, 999_999_999).is_some());
    assert!(Timestamp::from_unix(-8_000_000_000_000, 0).is_some());
}

#[test]
fn cloned_footer_and_field_keep_contents() {
    let mut f = EmbedFooter::default();
    f.text("t".to_string()).unwrap();
    f.icon_url("i".to_string());
    assert_eq!(f.clone(), f);
    let g = field_named("n");
    assert_eq!(g.clone(), g);
}
