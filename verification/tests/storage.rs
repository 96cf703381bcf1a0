use kbr_api_rust::storage::new_original_key;
use kbr_api_rust::storage::{upload_response, UploadedFile};
use kbr_api_rust::error::AppError;
use kbr_api_rust::storage::{
    apply_field, finish_form, original_key, variant_filename, variant_filename_with, variant_key,
    variant_widths, FormField, UploadForm, MAX_UPLOAD_SIZE,
};

fn text_field(name: &str, value: &str) -> FormField {
    FormField { name: Some(name.to_string()), data: value.as_bytes().to_vec(), content_type: None, filename: None }
}

fn file_field(ct: Option<&str>, filename: Option<&str>, len: usize) -> FormField {
    FormField {
        name: Some("file".to_string()),
        data: vec![7u8; len],
        content_type: ct.map(|s| s.to_string()),
        filename: filename.map(|s| s.to_string()),
    }
}

#[test]
fn complete_form_is_accepted() {
    let mut form = UploadForm::new();
    form = apply_field(form, text_field("record_type", "Artist")).unwrap();
    form = apply_field(form, text_field("record_id", " 42 ")).unwrap();
    form = apply_field(form, text_field("name", "images")).unwrap();
    form = apply_field(form, text_field("ignored", "x")).unwrap();
    form = apply_field(form, file_field(Some("image/png"), Some("cat.png"), 3)).unwrap();
    let req = finish_form(form).unwrap();
    assert_eq!(req.record_type, "Artist");
    assert_eq!(req.record_id, 42);
    assert_eq!(req.attachment_name, "images");
    assert_eq!(req.file.filename, "cat.png");
    assert_eq!(req.file.content_type, "image/png");
    assert_eq!(req.file.data.len(), 3);
}

#[test]
fn file_without_name_is_called_upload() {
    let form = apply_field(UploadForm::new(), file_field(Some("image/jpeg"), None, 1)).unwrap();
    assert_eq!(form.file.unwrap().filename, "upload");
}

#[test]
fn field_refusals() {
    let unnamed = FormField { name: None, data: vec![], content_type: None, filename: None };
    assert_eq!(
        apply_field(UploadForm::new(), unnamed).unwrap_err(),
        AppError::Validation("Field name is required".to_string())
    );
    assert_eq!(
        apply_field(UploadForm::new(), text_field("record_id", "4x")).unwrap_err(),
        AppError::Validation("record_id must be an integer".to_string())
    );
    let bad_utf8 = FormField { name: Some("name".to_string()), data: vec![0xff, 0xfe], content_type: None, filename: None };
    assert_eq!(
        apply_field(UploadForm::new(), bad_utf8).unwrap_err(),
        AppError::Validation("Invalid name".to_string())
    );
    assert_eq!(
        apply_field(UploadForm::new(), file_field(Some("text/plain"), None, 1)).unwrap_err(),
        AppError::Validation("Only image files are allowed".to_string())
    );
    assert_eq!(
        apply_field(UploadForm::new(), file_field(None, None, 1)).unwrap_err(),
        AppError::Validation("Content type is required".to_string())
    );
    assert_eq!(
        apply_field(UploadForm::new(), file_field(Some("image/png"), None, MAX_UPLOAD_SIZE + 1)).unwrap_err(),
        AppError::Validation("File too large. Maximum size is 10MB".to_string())
    );
}

#[test]
fn missing_parts_are_reported_in_order() {
    assert_eq!(
        finish_form(UploadForm::new()).unwrap_err(),
        AppError::Validation("record_type is required".to_string())
    );
    let form = apply_field(UploadForm::new(), text_field("record_type", "Artist")).unwrap();
    assert_eq!(finish_form(form).unwrap_err(), AppError::Validation("record_id is required".to_string()));
    let mut form = apply_field(UploadForm::new(), text_field("record_type", "Artist")).unwrap();
    form = apply_field(form, text_field("record_id", "1")).unwrap();
    form = apply_field(form, text_field("name", "images")).unwrap();
    assert_eq!(finish_form(form).unwrap_err(), AppError::Validation("file is required".to_string()));
}

#[test]
fn keys_and_variant_names() {
    assert_eq!(original_key("u-1", "cat.png"), "blobs/u-1/cat.png");
    assert_eq!(variant_key("u-1", 512, "cat..webp"), "variants/u-1/512/cat..webp");
    assert_eq!(variant_filename("cat.png"), "cat..webp");
    assert_eq!(variant_filename("cat"), "cat.webp");
    assert_eq!(variant_filename(".bashrc"), ".bashrc.webp");
    assert_eq!(variant_filename_with("photo.jpeg", "jpeg"), "photo..webp");
    assert_eq!(variant_filename_with("photo", "zip"), "photo.webp");
    assert_eq!(variant_widths(), vec![512, 100]);
}

#[test]
fn new_upload_keys_are_fresh_and_well_formed() {
    let (u1, k1) = new_original_key("cover.png");
    let (u2, _) = new_original_key("cover.png");
    assert_eq!(u1.len(), 36);
    assert_eq!(&u1[14..15], "4");
    assert_eq!(k1, format!("blobs/{}/cover.png", u1));
    assert_ne!(u1, u2);
}

#[test]
fn upload_response_reports_the_stored_file() {
    let file = UploadedFile { data: vec![1u8; 42], filename: "a.png".to_string(), content_type: "image/png".to_string() };
    let r = upload_response(9, "blobs/u/a.png".to_string(), file, "https://x/o".to_string(), "https://x/t".to_string());
    assert_eq!(r.id, 9);
    assert_eq!(r.byte_size, 42);
    assert_eq!(r.filename, "a.png");
    assert_eq!(r.content_type, "image/png");
    assert_eq!(r.key, "blobs/u/a.png");
    assert_eq!(r.thumbnail_url, "https://x/t");
}
