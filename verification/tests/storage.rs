//! The storage module.

use runtime_modules::storage::module::Module;
use runtime_modules::storage::types::{
    AcceptPendingDataObjectsParams, BagId, BaggedDataObject, DataObject,
    DataObjectCreationParameters, Error, StaticBag, StaticBagAssignment, StaticBagId,
    StorageBucket, StorageBucketOperatorStatus, UpdateStorageBucketForStaticBagsParams,
    UploadParametersObject, Voucher,
};
use std::collections::BTreeSet;

const UPLOADER: u64 = 7;

fn object(size: u64, content_id: &[u8]) -> DataObjectCreationParameters {
    DataObjectCreationParameters { size, ipfs_content_id: content_id.to_vec() }
}

fn upload_of(objects: Vec<DataObjectCreationParameters>) -> UploadParametersObject {
    UploadParametersObject {
        authentication_key: vec![1, 2, 3],
        bag_id: BagId::StaticBag(StaticBagId::Council),
        object_creation_list: objects,
        deletion_prize_source_account_id: UPLOADER,
    }
}

fn voucher() -> Voucher {
    Voucher { size_limit: 100, objects_limit: 10, size_used: 0, objects_used: 0 }
}

#[test]
fn identifiers_and_records_have_their_defaults() {
    assert_eq!(StaticBagId::default(), StaticBagId::Council);
    assert_eq!(BagId::default(), BagId::StaticBag(StaticBagId::Council));
    assert_eq!(StorageBucketOperatorStatus::default(), StorageBucketOperatorStatus::Missing);
    assert_eq!(
        Voucher::default(),
        Voucher { size_limit: 0, objects_limit: 0, size_used: 0, objects_used: 0 }
    );
    assert_eq!(
        StorageBucket::default(),
        StorageBucket {
            operator_status: StorageBucketOperatorStatus::Missing,
            accepting_new_bags: false,
            number_of_pending_data_objects: 0,
            voucher: Voucher::default(),
        }
    );
    assert_eq!(
        DataObject::default(),
        DataObject { accepted: false, deletion_prize: 0, size: 0, ipfs_content_id: vec![] }
    );
    let bag = StaticBag::default();
    assert!(bag.objects.is_empty());
    assert!(bag.stored_by.is_empty());
    let first = BaggedDataObject { bag_id: BagId::default(), data_object_id: 1u64 };
    let second = BaggedDataObject { bag_id: BagId::default(), data_object_id: 2u64 };
    assert!(first < second);
}

#[test]
fn upload_puts_objects_into_the_council_bag() {
    let mut module = Module::new(10, 5);
    assert_eq!(module.next_data_object_id(), 0);
    let params = upload_of(vec![object(10, b"a"), object(20, b"bc")]);
    assert_eq!(module.validate_upload_parameters(&params, UPLOADER), Ok(()));
    assert_eq!(module.upload(UPLOADER, &params), Ok(vec![0, 1]));
    assert_eq!(module.next_data_object_id(), 2);
    let bag = module.council_bag();
    assert_eq!(bag.objects.len(), 2);
    assert_eq!(
        bag.objects.get(&0),
        Some(&DataObject {
            accepted: false,
            deletion_prize: 0,
            size: 10,
            ipfs_content_id: b"a".to_vec()
        })
    );
    assert_eq!(
        bag.objects.get(&1),
        Some(&DataObject {
            accepted: false,
            deletion_prize: 0,
            size: 20,
            ipfs_content_id: b"bc".to_vec()
        })
    );

    let more = upload_of(vec![object(30, b"d")]);
    assert_eq!(module.upload(UPLOADER, &more), Ok(vec![2]));
    assert_eq!(module.next_data_object_id(), 3);
    assert_eq!(module.council_bag().objects.len(), 3);
    assert_eq!(module.council_bag().objects.get(&0).unwrap().size, 10);
    assert_eq!(module.council_bag().objects.get(&2).unwrap().size, 30);
    assert_eq!(module.static_bag(&StaticBagId::Council).objects.len(), 3);
}

#[test]
fn upload_is_refused_for_each_reason() {
    let mut module = Module::new(10, 3);
    module.upload(UPLOADER, &upload_of(vec![object(1, b"x")])).unwrap();

    // One object is held, three are allowed.
    let too_many = upload_of(vec![object(1, b"a"), object(1, b"b"), object(1, b"c")]);
    assert_eq!(
        module.validate_upload_parameters(&too_many, UPLOADER),
        Err(Error::DataObjectsPerBagLimitExceeded)
    );
    let just_enough = upload_of(vec![object(1, b"a"), object(1, b"b")]);
    assert_eq!(module.validate_upload_parameters(&just_enough, UPLOADER), Ok(()));

    let nothing = upload_of(vec![]);
    assert_eq!(
        module.validate_upload_parameters(&nothing, UPLOADER),
        Err(Error::NoObjectsOnUpload)
    );
    assert_eq!(
        module.validate_upload_parameters(&just_enough, UPLOADER + 1),
        Err(Error::InvalidDeletionPrizeSourceAccount)
    );
    let no_content_id = upload_of(vec![object(1, b"a"), object(5, b"")]);
    assert_eq!(
        module.validate_upload_parameters(&no_content_id, UPLOADER),
        Err(Error::EmptyContentId)
    );
    let no_size = upload_of(vec![object(0, b"a"), object(5, b"")]);
    assert_eq!(module.validate_upload_parameters(&no_size, UPLOADER), Err(Error::ZeroObjectSize));
    let neither = upload_of(vec![object(0, b"")]);
    assert_eq!(module.validate_upload_parameters(&neither, UPLOADER), Err(Error::EmptyContentId));

    // The limit is looked at first, the account before the objects.
    let many_bad = upload_of(vec![object(0, b""), object(0, b""), object(0, b"")]);
    assert_eq!(
        module.validate_upload_parameters(&many_bad, UPLOADER + 1),
        Err(Error::DataObjectsPerBagLimitExceeded)
    );
    assert_eq!(
        module.validate_upload_parameters(&neither, UPLOADER + 1),
        Err(Error::InvalidDeletionPrizeSourceAccount)
    );

    for refused in [too_many, nothing.clone(), no_content_id, no_size] {
        assert!(module.upload(UPLOADER, &refused).is_err());
    }
    assert_eq!(module.next_data_object_id(), 1);
    assert_eq!(module.council_bag().objects.len(), 1);

    let full = Module::new(10, 0);
    assert_eq!(
        full.validate_upload_parameters(&nothing, UPLOADER),
        Err(Error::NoObjectsOnUpload)
    );
    assert_eq!(
        full.validate_upload_parameters(&upload_of(vec![object(1, b"a")]), UPLOADER),
        Err(Error::DataObjectsPerBagLimitExceeded)
    );
}

#[test]
fn data_objects_are_created_under_consecutive_ids() {
    let mut module = Module::new(10, 100);
    module.upload(UPLOADER, &upload_of(vec![object(1, b"x"), object(1, b"y")])).unwrap();
    let candidates =
        module.create_data_objects(&vec![object(7, b"p"), object(8, b"q"), object(9, b"r")]);
    assert_eq!(candidates.next_data_object_id, 5);
    assert_eq!(candidates.data_object_ids, vec![2, 3, 4]);
    assert_eq!(candidates.data_objects_map.len(), 3);
    assert_eq!(
        candidates.data_objects_map.get(&3),
        Some(&DataObject {
            accepted: false,
            deletion_prize: 0,
            size: 8,
            ipfs_content_id: b"q".to_vec()
        })
    );
    // Creating candidates stores nothing.
    assert_eq!(module.next_data_object_id(), 2);
    let none = module.create_data_objects(&vec![]);
    assert_eq!(none.next_data_object_id, 2);
    assert!(none.data_object_ids.is_empty());
    assert!(none.data_objects_map.is_empty());
}

#[test]
fn storage_buckets_are_created_up_to_the_limit() {
    let mut module = Module::new(2, 5);
    assert_eq!(module.storage_buckets_number(), 0);
    assert_eq!(module.create_storage_bucket(Some(33), true, voucher()), Ok(0));
    assert_eq!(module.create_storage_bucket(None, false, Voucher::default()), Ok(1));
    assert_eq!(module.storage_buckets_number(), 2);
    assert_eq!(module.next_storage_bucket_id(), 2);
    assert_eq!(
        module.storage_bucket_by_id(0),
        StorageBucket {
            operator_status: StorageBucketOperatorStatus::InvitedStorageWorker(33),
            accepting_new_bags: true,
            number_of_pending_data_objects: 0,
            voucher: voucher(),
        }
    );
    assert_eq!(module.storage_bucket_by_id(1), StorageBucket::default());
    assert_eq!(module.storage_bucket_by_id(2), StorageBucket::default());
    assert_eq!(module.ensure_storage_bucket_exists(1), Ok(StorageBucket::default()));
    assert_eq!(module.ensure_storage_bucket_exists(2), Err(Error::StorageBucketDoesntExist));

    assert_eq!(
        module.create_storage_bucket(None, true, voucher()),
        Err(Error::MaxStorageNumberLimitExceeded)
    );
    assert_eq!(module.storage_buckets_number(), 2);
    assert_eq!(module.next_storage_bucket_id(), 2);

    let mut closed = Module::new(0, 5);
    assert_eq!(
        closed.create_storage_bucket(None, true, voucher()),
        Err(Error::MaxStorageNumberLimitExceeded)
    );
}

#[test]
fn invitation_is_accepted_by_the_invited_worker_alone() {
    let mut module = Module::new(5, 5);
    let invited = module.create_storage_bucket(Some(33), true, voucher()).unwrap();
    let vacant = module.create_storage_bucket(None, true, voucher()).unwrap();

    assert_eq!(
        module.accept_storage_bucket_invitation(33, 99),
        Err(Error::StorageBucketDoesntExist)
    );
    assert_eq!(
        module.accept_storage_bucket_invitation(33, vacant),
        Err(Error::NoStorageBucketInvitation)
    );
    assert_eq!(
        module.accept_storage_bucket_invitation(34, invited),
        Err(Error::DifferentStorageProviderInvited)
    );
    assert_eq!(
        module.storage_bucket_by_id(invited).operator_status,
        StorageBucketOperatorStatus::InvitedStorageWorker(33)
    );
    assert_eq!(module.accept_storage_bucket_invitation(33, invited), Ok(()));
    assert_eq!(
        module.storage_bucket_by_id(invited),
        StorageBucket {
            operator_status: StorageBucketOperatorStatus::StorageWorker(33),
            accepting_new_bags: true,
            number_of_pending_data_objects: 0,
            voucher: voucher(),
        }
    );
    assert_eq!(
        module.accept_storage_bucket_invitation(33, invited),
        Err(Error::StorageProviderAlreadySet)
    );
    assert_eq!(
        module.accept_storage_bucket_invitation(34, invited),
        Err(Error::StorageProviderAlreadySet)
    );

    let bucket = module.storage_bucket_by_id(vacant);
    assert_eq!(
        Module::ensure_bucket_invitation_status(&bucket, 1),
        Err(Error::NoStorageBucketInvitation)
    );
    let waiting = StorageBucket {
        operator_status: StorageBucketOperatorStatus::InvitedStorageWorker(1),
        ..bucket
    };
    assert_eq!(Module::ensure_bucket_invitation_status(&waiting, 1), Ok(()));
    assert_eq!(
        Module::ensure_bucket_invitation_status(&waiting, 2),
        Err(Error::DifferentStorageProviderInvited)
    );
}

#[test]
fn static_bag_is_given_to_the_buckets_named_last() {
    let mut module = Module::new(5, 5);
    module.upload(UPLOADER, &upload_of(vec![object(1, b"x")])).unwrap();
    let empty = UpdateStorageBucketForStaticBagsParams { bags: vec![] };
    assert_eq!(
        module.update_storage_buckets_for_static_bags(&empty),
        Err(Error::UpdateStorageBucketForStaticBagsParamsIsEmpty)
    );
    assert!(module.council_bag().stored_by.is_empty());

    let params = UpdateStorageBucketForStaticBagsParams {
        bags: vec![
            StaticBagAssignment { bag_id: StaticBagId::Council, buckets: BTreeSet::from([1, 2]) },
            StaticBagAssignment { bag_id: StaticBagId::Council, buckets: BTreeSet::from([3]) },
        ],
    };
    assert_eq!(module.update_storage_buckets_for_static_bags(&params), Ok(()));
    assert_eq!(module.council_bag().stored_by, BTreeSet::from([3]));
    // The objects of the bag stay.
    assert_eq!(module.council_bag().objects.len(), 1);

    let none = UpdateStorageBucketForStaticBagsParams {
        bags: vec![StaticBagAssignment { bag_id: StaticBagId::Council, buckets: BTreeSet::new() }],
    };
    assert_eq!(module.update_storage_buckets_for_static_bags(&none), Ok(()));
    assert!(module.council_bag().stored_by.is_empty());
}

#[test]
fn saved_bag_replaces_the_council_bag() {
    let mut module = Module::new(5, 5);
    module.upload(UPLOADER, &upload_of(vec![object(1, b"x")])).unwrap();
    let mut bag = StaticBag::default();
    bag.stored_by.insert(4);
    bag.objects.insert(
        9,
        DataObject { accepted: true, deletion_prize: 1, size: 2, ipfs_content_id: vec![3] },
    );
    module.save_static_bag(&StaticBagId::Council, bag);
    assert_eq!(module.council_bag().stored_by, BTreeSet::from([4]));
    assert_eq!(module.council_bag().objects.len(), 1);
    assert!(module.council_bag().objects.get(&9).unwrap().accepted);
    assert_eq!(module.next_data_object_id(), 1);
}

#[test]
fn calls_without_effect_leave_the_module_alone() {
    let mut module = Module::new(5, 5);
    let bucket = module.create_storage_bucket(Some(1), true, voucher()).unwrap();
    module.upload(UPLOADER, &upload_of(vec![object(1, b"x")])).unwrap();
    module.set_storage_operator_metadata(bucket, vec![1, 2, 3]);
    let mut accepted = BTreeSet::new();
    accepted.insert(BaggedDataObject { bag_id: BagId::default(), data_object_id: 0u64 });
    module.accept_pending_data_objects(
        1,
        AcceptPendingDataObjectsParams { bagged_data_objects: accepted },
    );
    assert_eq!(module.storage_buckets_number(), 1);
    assert_eq!(module.next_data_object_id(), 1);
    assert!(!module.council_bag().objects.get(&0).unwrap().accepted);
    assert_eq!(
        module.storage_bucket_by_id(bucket).operator_status,
        StorageBucketOperatorStatus::InvitedStorageWorker(1)
    );
}
