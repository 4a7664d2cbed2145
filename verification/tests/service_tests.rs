//! The service rules: date ordering, the in-use guard, lookups, and the full
//! create-to-delete walk of one crop and one batch.

use croptrack::date::Date;
use croptrack::errors::AppError;
use croptrack::models::batch::Batch;
use croptrack::models::crop::Crop;
use croptrack::numeric::Numeric64;
use croptrack::repositories::batch_repository::BatchRepository;
use croptrack::services::batch_service::BatchService;
use croptrack::services::crop_service::CropService;

fn date(y: u32, m: u8, d: u8) -> Date {
    Date { year: y, month: m, day: d }
}

fn num(v: f64) -> Numeric64 {
    Numeric64::from_bits(v.to_bits())
}

fn today() -> Date {
    date(2025, 6, 15)
}

fn soy_crop(harvested: Option<Date>) -> Crop {
    Crop::new(
        None,
        "Soy".to_string(),
        num(10.5),
        "organic".to_string(),
        date(2024, 1, 10),
        harvested,
        &today(),
    )
    .unwrap()
}

fn batch_for(crop: Crop, day: Date) -> Batch {
    Batch::new(
        None,
        crop,
        None,
        None,
        "bag".to_string(),
        num(100.0),
        None,
        day,
        &today(),
    )
    .unwrap()
}

#[test]
fn crop_with_harvest_before_planting_is_refused() {
    let mut crops = CropService::new();
    let crop = soy_crop(Some(date(2024, 1, 5)));
    let err = crops.insert(&crop).unwrap_err();
    assert_eq!(err.status_code(), 400);
    assert_eq!(
        err.message(),
        "The harvest date (05/01/2024) cannot be earlier than the planting date (10/01/2024)"
    );
    assert!(crops.list().unwrap().is_empty());
}

#[test]
fn crop_with_harvest_on_or_after_planting_is_accepted() {
    let mut crops = CropService::new();
    let same_day = soy_crop(Some(date(2024, 1, 10)));
    let later = soy_crop(Some(date(2024, 3, 1)));
    assert!(crops.insert(&same_day).is_ok());
    assert!(crops.insert(&later).is_ok());
    assert_eq!(crops.list().unwrap().len(), 2);
}

#[test]
fn inserted_crops_get_distinct_ids_and_are_found_again() {
    let mut crops = CropService::new();
    let a = crops.insert(&soy_crop(None)).unwrap();
    let b = crops.insert(&soy_crop(None)).unwrap();
    let ida = a.id().unwrap();
    let idb = b.id().unwrap();
    assert_ne!(ida, idb);
    assert_eq!(crops.find_by_id(ida).unwrap().id().unwrap(), ida);
    assert_eq!(crops.find_by_id(idb).unwrap().name(), "Soy");
}

#[test]
fn missing_ids_are_reported_naming_the_id() {
    let crops = CropService::new();
    let err = crops.find_by_id(42).unwrap_err();
    assert_eq!(err.status_code(), 404);
    assert_eq!(err.message(), "Crop with id 42 not found");
    assert!(matches!(err, AppError::NotFound(_)));

    let batches = BatchService::new();
    let err = batches.find_by_id(-7).unwrap_err();
    assert_eq!(err.status_code(), 404);
    assert_eq!(err.message(), "Batch with id -7 not found");
}

#[test]
fn batch_dated_before_planting_is_refused() {
    let mut crops = CropService::new();
    let mut batches = BatchService::new();
    let crop = crops.insert(&soy_crop(None)).unwrap();
    let err = batches.insert(batch_for(crop, date(2024, 1, 5))).unwrap_err();
    assert_eq!(err.status_code(), 400);
    assert_eq!(
        err.message(),
        "The batch date (05/01/2024) cannot be earlier than the crop's planting date (10/01/2024)"
    );
    assert!(batches.list().unwrap().is_empty());
}

#[test]
fn batch_insert_assigns_a_fresh_twelve_character_code() {
    let mut crops = CropService::new();
    let mut batches = BatchService::new();
    let crop = crops.insert(&soy_crop(None)).unwrap();
    let first = batches.insert(batch_for(crop.clone(), date(2024, 2, 1))).unwrap();
    let second = batches.insert(batch_for(crop, date(2024, 3, 1))).unwrap();
    let code1 = first.tracking_code().clone().unwrap();
    let code2 = second.tracking_code().clone().unwrap();
    assert_eq!(code1.len(), 12);
    assert!(code1.chars().all(|c| c.is_ascii_alphanumeric()));
    assert_ne!(code1, code2);
    assert_ne!(first.id().unwrap(), second.id().unwrap());
}

#[test]
fn in_use_crop_cannot_be_updated_or_deleted() {
    let mut crops = CropService::new();
    let mut batches = BatchService::new();
    let crop = crops.insert(&soy_crop(None)).unwrap();
    let id = crop.id().unwrap();
    batches.insert(batch_for(crop, date(2024, 2, 1))).unwrap();
    assert!(batches.is_crop_in_use(id).unwrap());

    let mut renamed = soy_crop(None);
    renamed.set_name("Wheat".to_string());
    let err = crops.update(id, &renamed, &batches).unwrap_err();
    assert_eq!(err.status_code(), 400);
    assert_eq!(
        err.message(),
        "Crop with id 1 is referenced by a batch and cannot be changed"
    );
    let err = crops.delete(id, &batches).unwrap_err();
    assert_eq!(err.status_code(), 400);

    // The crop is unchanged in the store.
    assert_eq!(crops.find_by_id(id).unwrap().name(), "Soy");
    assert_eq!(crops.list().unwrap().len(), 1);
}

#[test]
fn unreferenced_crop_can_be_updated_and_deleted() {
    let mut crops = CropService::new();
    let batches = BatchService::new();
    let crop = crops.insert(&soy_crop(None)).unwrap();
    let id = crop.id().unwrap();
    assert!(!batches.is_crop_in_use(id).unwrap());

    let mut renamed = soy_crop(None);
    renamed.set_name("Wheat".to_string());
    let updated = crops.update(id, &renamed, &batches).unwrap();
    assert_eq!(updated.id().unwrap(), id);
    assert_eq!(crops.find_by_id(id).unwrap().name(), "Wheat");

    crops.delete(id, &batches).unwrap();
    let err = crops.find_by_id(id).unwrap_err();
    assert_eq!(err.status_code(), 404);
}

#[test]
fn update_of_a_crop_with_bad_dates_is_refused_even_when_unreferenced() {
    let mut crops = CropService::new();
    let batches = BatchService::new();
    let crop = crops.insert(&soy_crop(None)).unwrap();
    let id = crop.id().unwrap();
    let bad = soy_crop(Some(date(2024, 1, 5)));
    let err = crops.update(id, &bad, &batches).unwrap_err();
    assert_eq!(err.status_code(), 400);
    assert_eq!(crops.find_by_id(id).unwrap().name(), "Soy");
}

#[test]
fn batch_update_keeps_id_and_tracking_code_and_revalidates() {
    let mut crops = CropService::new();
    let mut batches = BatchService::new();
    let crop = crops.insert(&soy_crop(None)).unwrap();
    let stored = batches.insert(batch_for(crop.clone(), date(2024, 2, 1))).unwrap();
    let id = stored.id().unwrap();
    let code = stored.tracking_code().clone().unwrap();

    let err = batches.update(id, &batch_for(crop.clone(), date(2024, 1, 5))).unwrap_err();
    assert_eq!(err.status_code(), 400);

    let mut change = batch_for(crop, date(2024, 4, 1));
    change.set_packing("crate".to_string());
    let updated = batches.update(id, &change).unwrap();
    assert_eq!(updated.id().unwrap(), id);
    assert_eq!(updated.tracking_code().clone().unwrap(), code);
    let found = batches.find_by_id(id).unwrap();
    assert_eq!(found.packing(), "crate");
    assert_eq!(found.date(), date(2024, 4, 1));
    assert_eq!(found.tracking_code().clone().unwrap(), code);
}

#[test]
fn batch_delete_is_unconditional() {
    let mut crops = CropService::new();
    let mut batches = BatchService::new();
    let crop = crops.insert(&soy_crop(None)).unwrap();
    let stored = batches.insert(batch_for(crop, date(2024, 2, 1))).unwrap();
    batches.delete(stored.id().unwrap()).unwrap();
    assert!(batches.list().unwrap().is_empty());
    // Deleting an id that is not stored still succeeds.
    batches.delete(999).unwrap();
}

#[test]
fn duplicate_tracking_codes_are_refused_by_the_store() {
    let mut repo = BatchRepository::new();
    let make = |code: &str| {
        Batch::new(
            None,
            Crop::new(
                Some(1),
                "Soy".to_string(),
                num(1.0),
                "o".to_string(),
                date(2024, 1, 10),
                None,
                &today(),
            )
            .unwrap(),
            None,
            None,
            "bag".to_string(),
            num(1.0),
            Some(code.to_string()),
            date(2024, 2, 1),
            &today(),
        )
        .unwrap()
    };
    repo.insert(make("AAAABBBBCCCC")).unwrap();
    let err = repo.insert(make("AAAABBBBCCCC")).unwrap_err();
    assert_eq!(err.status_code(), 400);
    assert_eq!(err.message(), "A batch with this tracking code already exists");
    repo.insert(make("AAAABBBBCCCD")).unwrap();
}

#[test]
fn one_crop_and_one_batch_walk_through_their_lifecycle() {
    let mut crops = CropService::new();
    let mut batches = BatchService::new();

    // Insert the crop: an id is assigned.
    let crop = crops.insert(&soy_crop(None)).unwrap();
    let crop_id = crop.id().unwrap();
    assert!(crop_id >= 1);

    // A batch dated before the planting date is refused.
    let err = batches.insert(batch_for(crop.clone(), date(2024, 1, 5))).unwrap_err();
    assert_eq!(err.status_code(), 400);

    // A batch dated after it is accepted, with a 12-character code.
    let stored = batches.insert(batch_for(crop, date(2024, 2, 1))).unwrap();
    assert_eq!(stored.tracking_code().clone().unwrap().len(), 12);
    assert_eq!(stored.crop().id().unwrap(), crop_id);

    // The crop is now in use and cannot be deleted.
    let err = crops.delete(crop_id, &batches).unwrap_err();
    assert_eq!(err.status_code(), 400);

    // Delete the batch, then the crop.
    batches.delete(stored.id().unwrap()).unwrap();
    crops.delete(crop_id, &batches).unwrap();
    assert!(crops.list().unwrap().is_empty());
    assert!(batches.list().unwrap().is_empty());
}

#[test]
fn batches_are_found_by_tracking_code_and_by_crop_id() {
    let mut crops = CropService::new();
    let mut batches = BatchService::new();
    let crop = crops.insert(&soy_crop(None)).unwrap();
    let crop_id = crop.id().unwrap();
    let first = batches.insert(batch_for(crop.clone(), date(2024, 2, 1))).unwrap();
    batches.insert(batch_for(crop, date(2024, 3, 1))).unwrap();
    let code = first.tracking_code().clone().unwrap();

    let hits = batches.find_by_tracking_code(&code).unwrap();
    assert_eq!(hits.len(), 1);
    assert_eq!(hits[0].id().unwrap(), first.id().unwrap());
    assert!(batches.find_by_tracking_code("000000000000").unwrap().is_empty());

    assert_eq!(batches.find_by_crop_id(crop_id).unwrap().len(), 2);
    assert!(batches.find_by_crop_id(crop_id + 1).unwrap().is_empty());
}
