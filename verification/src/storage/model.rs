//! The mathematical model of the storage module.

use super::types::{
    AccountId, DataObjectCreationParametersView, DataObjectId, DataObjectView, Error,
    StaticBagView, StorageBucket, StorageBucketId, StorageBucketOperatorStatus,
    UploadParametersView, Voucher, WorkerId,
};
use vstd::prelude::*;

verus! {

/// Why one object is refused, if it is: it needs a content id and a size.
pub open spec fn object_refusal(object: DataObjectCreationParametersView) -> Option<Error> {
    if object.ipfs_content_id.len() == 0 {
        Some(Error::EmptyContentId)
    } else if object.size == 0 {
        Some(Error::ZeroObjectSize)
    } else {
        None
    }
}

/// Why a list of objects is refused, if it is: for the first of them that
/// is refused.
pub open spec fn objects_refusal(objects: Seq<DataObjectCreationParametersView>) -> Option<Error>
    decreases objects.len(),
{
    if objects.len() == 0 {
        None
    } else {
        match objects_refusal(objects.drop_last()) {
            Some(error) => Some(error),
            None => object_refusal(objects.last()),
        }
    }
}

/// The object that is created from `params`: not accepted yet and without
/// a deletion prize.
pub open spec fn created_object(params: DataObjectCreationParametersView) -> DataObjectView {
    DataObjectView {
        accepted: false,
        deletion_prize: 0,
        size: params.size,
        ipfs_content_id: params.ipfs_content_id,
    }
}

/// The ids that `count` new objects get from `first_id` on.
pub open spec fn created_ids(first_id: DataObjectId, count: nat) -> Seq<DataObjectId>
    recommends
        first_id + count <= DataObjectId::MAX,
{
    Seq::new(count, |i: int| (first_id + i) as DataObjectId)
}

/// The objects that are created from `params`, under consecutive ids from
/// `first_id` on.
pub open spec fn created_objects(
    params: Seq<DataObjectCreationParametersView>,
    first_id: DataObjectId,
) -> Map<DataObjectId, DataObjectView> {
    Map::new(
        |id: DataObjectId| first_id <= id < first_id + params.len(),
        |id: DataObjectId| created_object(params[id - first_id]),
    )
}

/// Why a worker cannot accept the invitation to a bucket, if it cannot:
/// the bucket must hold an invitation for that worker.
pub open spec fn invitation_refusal(bucket: StorageBucket, worker_id: WorkerId) -> Option<Error> {
    match bucket.operator_status {
        StorageBucketOperatorStatus::Missing => Some(Error::NoStorageBucketInvitation),
        StorageBucketOperatorStatus::StorageWorker(_) => Some(Error::StorageProviderAlreadySet),
        StorageBucketOperatorStatus::InvitedStorageWorker(invited) => if worker_id == invited {
            None
        } else {
            Some(Error::DifferentStorageProviderInvited)
        },
    }
}

/// The state of the storage module.
pub struct ModuleState {
    /// The most storage buckets there may be.
    pub max_storage_bucket_number: u64,
    /// The most data objects a bag may hold.
    pub max_number_of_data_objects_per_bag: u64,
    /// The bag of the council.
    pub council_bag: StaticBagView,
    /// The id the next storage bucket gets.
    pub next_storage_bucket_id: StorageBucketId,
    /// The id the next data object gets.
    pub next_data_object_id: DataObjectId,
    /// The number of storage buckets.
    pub storage_buckets_number: u64,
    /// The storage buckets by id.
    pub storage_bucket_by_id: Map<StorageBucketId, StorageBucket>,
}

impl ModuleState {
    /// A module without buckets and objects.
    pub open spec fn initial(
        max_storage_bucket_number: u64,
        max_number_of_data_objects_per_bag: u64,
    ) -> ModuleState {
        ModuleState {
            max_storage_bucket_number,
            max_number_of_data_objects_per_bag,
            council_bag: StaticBagView { objects: Map::empty(), stored_by: Set::empty() },
            next_storage_bucket_id: 0,
            next_data_object_id: 0,
            storage_buckets_number: 0,
            storage_bucket_by_id: Map::empty(),
        }
    }

    /// Why an upload is refused, if it is: the bag must not grow over its
    /// limit, something must be uploaded, the uploader's account must pay
    /// the deletion prize, and every object must be acceptable.
    pub open spec fn upload_refusal(
        self,
        params: UploadParametersView,
        account_id: AccountId,
    ) -> Option<Error> {
        if params.object_creation_list.len() + self.council_bag.objects.len()
            > self.max_number_of_data_objects_per_bag {
            Some(Error::DataObjectsPerBagLimitExceeded)
        } else if params.object_creation_list.len() == 0 {
            Some(Error::NoObjectsOnUpload)
        } else if params.deletion_prize_source_account_id != account_id {
            Some(Error::InvalidDeletionPrizeSourceAccount)
        } else {
            objects_refusal(params.object_creation_list)
        }
    }

    /// The state an upload leaves: the new objects lie in the council's
    /// bag under the next ids, and the id counter moved past them.
    pub open spec fn after_upload(
        self,
        params: UploadParametersView,
        account_id: AccountId,
    ) -> ModuleState {
        if self.upload_refusal(params, account_id) is Some {
            self
        } else {
            ModuleState {
                council_bag: StaticBagView {
                    objects: self.council_bag.objects.union_prefer_right(
                        created_objects(params.object_creation_list, self.next_data_object_id),
                    ),
                    ..self.council_bag
                },
                next_data_object_id: (self.next_data_object_id
                    + params.object_creation_list.len()) as DataObjectId,
                ..self
            }
        }
    }

    /// Why no storage bucket can be created, if none can.
    pub open spec fn create_storage_bucket_refusal(self) -> Option<Error> {
        if self.storage_buckets_number >= self.max_storage_bucket_number {
            Some(Error::MaxStorageNumberLimitExceeded)
        } else {
            None
        }
    }

    /// The bucket that is created: with an invitation for the worker, if
    /// one is invited, and with nothing pending.
    pub open spec fn created_bucket(
        invite_worker: Option<WorkerId>,
        accepting_new_data_objects: bool,
        voucher: Voucher,
    ) -> StorageBucket {
        StorageBucket {
            operator_status: match invite_worker {
                Some(worker_id) => StorageBucketOperatorStatus::InvitedStorageWorker(worker_id),
                None => StorageBucketOperatorStatus::Missing,
            },
            accepting_new_bags: accepting_new_data_objects,
            number_of_pending_data_objects: 0,
            voucher,
        }
    }

    /// The state the creation of a storage bucket leaves.
    pub open spec fn after_create_storage_bucket(
        self,
        invite_worker: Option<WorkerId>,
        accepting_new_data_objects: bool,
        voucher: Voucher,
    ) -> ModuleState {
        if self.create_storage_bucket_refusal() is Some {
            self
        } else {
            ModuleState {
                storage_buckets_number: (self.storage_buckets_number + 1) as u64,
                next_storage_bucket_id: (self.next_storage_bucket_id + 1) as StorageBucketId,
                storage_bucket_by_id: self.storage_bucket_by_id.insert(
                    self.next_storage_bucket_id,
                    Self::created_bucket(invite_worker, accepting_new_data_objects, voucher),
                ),
                ..self
            }
        }
    }

    /// Why a worker cannot accept the invitation to the bucket
    /// `storage_bucket_id`, if it cannot.
    pub open spec fn accept_invitation_refusal(
        self,
        worker_id: WorkerId,
        storage_bucket_id: StorageBucketId,
    ) -> Option<Error> {
        if !self.storage_bucket_by_id.contains_key(storage_bucket_id) {
            Some(Error::StorageBucketDoesntExist)
        } else {
            invitation_refusal(self.storage_bucket_by_id[storage_bucket_id], worker_id)
        }
    }

    /// The state an accepted invitation leaves: the worker operates the
    /// bucket.
    pub open spec fn after_accept_invitation(
        self,
        worker_id: WorkerId,
        storage_bucket_id: StorageBucketId,
    ) -> ModuleState {
        if self.accept_invitation_refusal(worker_id, storage_bucket_id) is Some {
            self
        } else {
            ModuleState {
                storage_bucket_by_id: self.storage_bucket_by_id.insert(
                    storage_bucket_id,
                    StorageBucket {
                        operator_status: StorageBucketOperatorStatus::StorageWorker(worker_id),
                        ..self.storage_bucket_by_id[storage_bucket_id]
                    },
                ),
                ..self
            }
        }
    }

    /// The state after the council's bag was given to `buckets`.
    pub open spec fn stored_by(self, buckets: Set<StorageBucketId>) -> ModuleState {
        ModuleState {
            council_bag: StaticBagView { stored_by: buckets, ..self.council_bag },
            ..self
        }
    }
}

} // verus!
