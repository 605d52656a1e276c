use tgbot::api::{Form, FormValue, InputFile};
use tgbot::json::Decimal;
use tgbot::sticker::{InputSticker, InputStickers, MaskPosition, MaskPositionPoint};

fn form_of(entries: Vec<(&str, FormValue)>) -> Form {
    let mut form = Form::new();
    for (name, value) in entries {
        form.insert_field(name, value);
    }
    form
}

#[test]
fn input_sticker() {
    let value = InputSticker::new(InputFile::file_id("file-id"), vec![String::from("😻")]);
    let form: Form = value.into_form();
    assert_eq!(
        form_of(vec![(
            "sticker",
            FormValue::text(r#"{"sticker":"file-id","emoji_list":["😻"]}"#),
        )]),
        form
    );

    let value = InputSticker::new(
        InputFile::url("https://google.com/favicon.ico"),
        vec![String::from("😻")],
    )
    .with_keywords(vec![String::from("kw")])
    .with_mask_position(MaskPosition::new(
        MaskPositionPoint::Forehead,
        Decimal::new(30, 1),
        Decimal::new(10, 1),
        Decimal::new(20, 1),
    ));
    let form: Form = value.into_form();
    assert_eq!(
        form_of(vec![(
            "sticker",
            FormValue::text(
                "{\"sticker\":\"https://google.com/favicon.ico\",\"emoji_list\":[\"😻\"],\"mask_position\":{\"point\":\"forehead\",\"scale\":3.0,\"x_shift\":1.0,\"y_shift\":2.0},\"keywords\":[\"kw\"]}",
            ),
        )]),
        form
    );

    let value = InputSticker::new(
        InputFile::reader("test".as_bytes().to_vec()),
        vec![String::from("😻")],
    );
    let form: Form = value.into_form();
    assert_eq!(
        form_of(vec![
            (
                "tgbot_input_sticker",
                FormValue::File(InputFile::reader("test".as_bytes().to_vec())),
            ),
            (
                "sticker",
                FormValue::text(r#"{"sticker":"attach://tgbot_input_sticker","emoji_list":["😻"]}"#),
            ),
        ]),
        form
    );
}

#[test]
fn input_stickers() {
    let value = InputStickers::default()
        .add_sticker(InputSticker::new(
            InputFile::file_id("file-id"),
            vec![String::from("😻")],
        ))
        .add_sticker(InputSticker::new(
            InputFile::url("https://google.com/favicon.ico"),
            vec![String::from("😻")],
        ));
    let form: Form = value.into_form();
    assert_eq!(
        form_of(vec![(
            "stickers",
            FormValue::text(
                "[{\"sticker\":\"file-id\",\"emoji_list\":[\"😻\"]},{\"sticker\":\"https://google.com/favicon.ico\",\"emoji_list\":[\"😻\"]}]",
            ),
        )]),
        form
    );
}

#[test]
fn input_stickers_upload_gets_attach_name() {
    let value = InputStickers::default()
        .add_sticker(InputSticker::new(
            InputFile::reader(vec![1u8, 2u8]),
            vec![String::from("😻")],
        ));
    let form = value.into_form();
    assert!(form.get("tgbot_input_sticker_0").unwrap().get_file().is_some());
    assert_eq!(
        form.get("stickers").unwrap().get_text().unwrap().as_str(),
        r#"[{"sticker":"attach://tgbot_input_sticker_0","emoji_list":["😻"]}]"#
    );
}
