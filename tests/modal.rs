use chat_embed::{ErrorKind, LimitedAttribute, Modal, ModalBuilder, ModalConversionError};

fn ready(n: usize) -> ModalBuilder<u32> {
    let mut b = ModalBuilder::new();
    b.custom_id("form".to_string()).unwrap();
    b.title("A form".to_string());
    for i in 0..n {
        b.add_component(i as u32).unwrap();
    }
    b
}

#[test]
fn empty_modal_reports_missing_custom_id_first() {
    let b: ModalBuilder<u32> = ModalBuilder::new();
    assert_eq!(b.build().unwrap_err(), ModalConversionError::MissingCustomId);
}

#[test]
fn missing_title_comes_before_missing_components() {
    let mut b: ModalBuilder<u32> = ModalBuilder::default();
    b.custom_id("id".to_string()).unwrap();
    assert_eq!(b.build().unwrap_err(), ModalConversionError::MissingTitle);
}

#[test]
fn modal_without_components_is_rejected() {
    assert_eq!(ready(0).build().unwrap_err(), ModalConversionError::MissingComponents);
}

#[test]
fn modal_with_one_component_builds() {
    let m = ready(1).build().unwrap();
    assert_eq!(m.custom_id(), "form");
    assert_eq!(m.title(), "A form");
    assert_eq!(m.components(), &vec![0u32]);
}

#[test]
fn modal_with_five_components_builds_in_order() {
    let m = ready(5).build().unwrap();
    assert_eq!(m.components(), &vec![0u32, 1, 2, 3, 4]);
}

#[test]
fn sixth_component_is_refused() {
    let mut b = ready(5);
    assert_eq!(
        b.add_component(99),
        Err(ErrorKind::LimitReached { field: LimitedAttribute::ModalComponents, max: 5 })
    );
    let m = b.build().unwrap();
    assert_eq!(m.components().len(), 5);
}

#[test]
fn custom_id_limit() {
    let mut b: ModalBuilder<u32> = ModalBuilder::new();
    assert_eq!(b.custom_id("x".repeat(100)), Ok(()));
    assert_eq!(
        b.custom_id("y".repeat(101)),
        Err(ErrorKind::FieldTooLong {
            field: LimitedAttribute::ModalCustomId,
            max: 100,
            actual: 101
        })
    );
    b.title("t".to_string());
    b.add_component(1).unwrap();
    assert_eq!(b.build().unwrap().custom_id(), &"x".repeat(100));
}

#[test]
fn modal_error_messages() {
    assert_eq!(ModalConversionError::MissingCustomId.message(), "Missing a custom id for modal!");
    assert_eq!(ModalConversionError::MissingTitle.message(), "Missing a title for modal!");
    assert_eq!(
        ModalConversionError::MissingComponents.message(),
        "Modal does not contain any components!"
    );
    assert_eq!(
        ModalConversionError::TooManyComponents.message(),
        "Modal contains too much components!"
    );
}

#[test]
fn default_modal_is_empty() {
    let m: Modal<u32> = Modal::default();
    assert_eq!(m.custom_id(), "");
    assert_eq!(m.title(), "");
    assert!(m.components().is_empty());
}
