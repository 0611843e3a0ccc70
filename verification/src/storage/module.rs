//! The storage module: uploads into the council's bag and the life of
//! storage buckets. Who calls is settled before a call gets here.

use super::model::{
    created_ids, created_object, created_objects, invitation_refusal, object_refusal,
    objects_refusal, ModuleState,
};
use super::types::{
    AccountId, AcceptPendingDataObjectsParams, BagId, DataObject, DataObjectCreationParameters,
    DataObjectId, Error, StaticBag, StaticBagId, StorageBucket, StorageBucketId,
    StorageBucketOperatorStatus, UpdateStorageBucketForStaticBagsParams, UploadParametersObject,
    Voucher, WorkerId,
};
use std::collections::{BTreeMap, HashMap};
use vstd::prelude::*;

verus! {

broadcast use {
    vstd::std_specs::hash::group_hash_axioms,
    vstd::std_specs::btree::group_btree_axioms,
    vstd::laws_cmp::group_laws_cmp,
};

/// Converts a length with `sp_arithmetic::traits::SaturatedConversion`,
/// its `saturated_into`: the number itself, or the largest `u64` where it
/// does not fit.
#[verifier::external_body]
fn saturated_into_u64(length: usize) -> (converted: u64)
    ensures
        length <= u64::MAX ==> converted == length,
        length > u64::MAX ==> converted == u64::MAX,
{
    sp_arithmetic::traits::SaturatedConversion::saturated_into::<u64>(length)
}

/// A copy of `bytes`.
fn copy_of(bytes: &Vec<u8>) -> (copy: Vec<u8>)
    ensures
        copy@ == bytes@,
{
    bytes.clone()
}

/// The objects that an upload is about to add.
pub struct DataObjectCandidates {
    /// The id the next data object gets after these.
    pub next_data_object_id: DataObjectId,
    /// The new objects by id.
    pub data_objects_map: BTreeMap<DataObjectId, DataObject>,
    /// The ids of the new objects, in order.
    pub data_object_ids: Vec<DataObjectId>,
}

/// The storage module.
pub struct Module {
    max_storage_bucket_number: u64,
    max_number_of_data_objects_per_bag: u64,
    council_bag: StaticBag,
    next_storage_bucket_id: StorageBucketId,
    next_data_object_id: DataObjectId,
    storage_buckets_number: u64,
    storage_bucket_by_id: HashMap<StorageBucketId, StorageBucket>,
}

impl View for Module {
    type V = ModuleState;

    closed spec fn view(&self) -> ModuleState {
        ModuleState {
            max_storage_bucket_number: self.max_storage_bucket_number,
            max_number_of_data_objects_per_bag: self.max_number_of_data_objects_per_bag,
            council_bag: self.council_bag@,
            next_storage_bucket_id: self.next_storage_bucket_id,
            next_data_object_id: self.next_data_object_id,
            storage_buckets_number: self.storage_buckets_number,
            storage_bucket_by_id: self.storage_bucket_by_id@,
        }
    }
}

impl Module {
    /// A module without buckets and objects, under the given limits.
    pub fn new(
        max_storage_bucket_number: u64,
        max_number_of_data_objects_per_bag: u64,
    ) -> (module: Self)
        ensures
            module@ == ModuleState::initial(
                max_storage_bucket_number,
                max_number_of_data_objects_per_bag,
            ),
    {
        let module = Module {
            max_storage_bucket_number,
            max_number_of_data_objects_per_bag,
            council_bag: StaticBag::default(),
            next_storage_bucket_id: 0,
            next_data_object_id: 0,
            storage_buckets_number: 0,
            storage_bucket_by_id: HashMap::new(),
        };
        module
    }

    /// The id the next storage bucket gets.
    pub fn next_storage_bucket_id(&self) -> (id: StorageBucketId)
        ensures
            id == self@.next_storage_bucket_id,
    {
        self.next_storage_bucket_id
    }

    /// The id the next data object gets.
    pub fn next_data_object_id(&self) -> (id: DataObjectId)
        ensures
            id == self@.next_data_object_id,
    {
        self.next_data_object_id
    }

    /// The number of storage buckets.
    pub fn storage_buckets_number(&self) -> (number: u64)
        ensures
            number == self@.storage_buckets_number,
    {
        self.storage_buckets_number
    }

    /// The bag of the council.
    pub fn council_bag(&self) -> (bag: &StaticBag)
        ensures
            bag@ == self@.council_bag,
    {
        &self.council_bag
    }

    /// The storage bucket `storage_bucket_id`, or the default bucket where
    /// there is none.
    pub fn storage_bucket_by_id(
        &self,
        storage_bucket_id: StorageBucketId,
    ) -> (bucket: StorageBucket)
        ensures
            bucket == if self@.storage_bucket_by_id.contains_key(storage_bucket_id) {
                self@.storage_bucket_by_id[storage_bucket_id]
            } else {
                StorageBucket {
                    operator_status: StorageBucketOperatorStatus::Missing,
                    accepting_new_bags: false,
                    number_of_pending_data_objects: 0,
                    voucher: Voucher {
                        size_limit: 0,
                        objects_limit: 0,
                        size_used: 0,
                        objects_used: 0,
                    },
                }
            },
    {
        match self.storage_bucket_by_id.get(&storage_bucket_id) {
            Some(bucket) => *bucket,
            None => StorageBucket::default(),
        }
    }

    /// Checks what an uploader asks for: the bag must not grow over its
    /// limit, something must be uploaded, `account_id` must pay the
    /// deletion prize, and every object needs a content id and a size.
    pub fn validate_upload_parameters(
        &self,
        params: &UploadParametersObject,
        account_id: AccountId,
    ) -> (outcome: Result<(), Error>)
        ensures
            outcome == match self@.upload_refusal(params@, account_id) {
                Some(error) => Err::<(), Error>(error),
                None => Ok(()),
            },
    {
        let BagId::StaticBag(static_bag_id) = params.bag_id;
        let bag = self.static_bag(&static_bag_id);
        let uploaded = saturated_into_u64(params.object_creation_list.len());
        let held = saturated_into_u64(bag.objects.len());
        let limit = self.max_number_of_data_objects_per_bag;
        proof {
            assert(bag@.objects.dom() =~= bag.objects@.dom());
        }
        if uploaded > limit || held > limit - uploaded {
            return Err(Error::DataObjectsPerBagLimitExceeded);
        }
        if params.object_creation_list.len() == 0 {
            return Err(Error::NoObjectsOnUpload);
        }
        if params.deletion_prize_source_account_id != account_id {
            return Err(Error::InvalidDeletionPrizeSourceAccount);
        }
        let mut i: usize = 0;
        while i < params.object_creation_list.len()
            invariant
                i <= params.object_creation_list.len(),
                params@.object_creation_list.len() == params.object_creation_list@.len(),
                self@.upload_refusal(params@, account_id) == objects_refusal(
                    params@.object_creation_list,
                ),
                objects_refusal(params@.object_creation_list.take(i as int)) is None,
            decreases params.object_creation_list.len() - i,
        {
            let object_params = &params.object_creation_list[i];
            proof {
                let list = params@.object_creation_list;
                assert(list.take(i + 1).drop_last() =~= list.take(i as int));
                if object_refusal(object_params@) is Some {
                    lemma_refusal_stays(list, i + 1);
                }
            }
            if object_params.ipfs_content_id.len() == 0 {
                return Err(Error::EmptyContentId);
            }
            if object_params.size == 0 {
                return Err(Error::ZeroObjectSize);
            }
            i = i + 1;
        }
        proof {
            let list = params@.object_creation_list;
            assert(list.take(i as int) =~= list);
        }
        Ok(())
    }

    /// The storage bucket `storage_bucket_id`, if there is one.
    pub fn ensure_storage_bucket_exists(
        &self,
        storage_bucket_id: StorageBucketId,
    ) -> (outcome: Result<StorageBucket, Error>)
        ensures
            outcome == if self@.storage_bucket_by_id.contains_key(storage_bucket_id) {
                Ok::<StorageBucket, Error>(self@.storage_bucket_by_id[storage_bucket_id])
            } else {
                Err(Error::StorageBucketDoesntExist)
            },
    {
        match self.storage_bucket_by_id.get(&storage_bucket_id) {
            Some(bucket) => Ok(*bucket),
            None => Err(Error::StorageBucketDoesntExist),
        }
    }

    /// Checks that `bucket` holds an invitation for `worker_id`.
    pub fn ensure_bucket_invitation_status(
        bucket: &StorageBucket,
        worker_id: WorkerId,
    ) -> (outcome: Result<(), Error>)
        ensures
            outcome == match invitation_refusal(*bucket, worker_id) {
                Some(error) => Err::<(), Error>(error),
                None => Ok(()),
            },
    {
        match bucket.operator_status {
            StorageBucketOperatorStatus::Missing => Err(Error::NoStorageBucketInvitation),
            StorageBucketOperatorStatus::StorageWorker(_) => Err(Error::StorageProviderAlreadySet),
            StorageBucketOperatorStatus::InvitedStorageWorker(invited_worker_id) => {
                if worker_id != invited_worker_id {
                    return Err(Error::DifferentStorageProviderInvited);
                }
                Ok(())
            },
        }
    }

    /// The static bag `bag_id`.
    pub fn static_bag(&self, bag_id: &StaticBagId) -> (bag: &StaticBag)
        ensures
            bag@ == self@.council_bag,
    {
        match bag_id {
            StaticBagId::Council => &self.council_bag,
        }
    }

    /// Creates the data objects for `object_creation_list`, under
    /// consecutive ids from the next one on: each is not accepted yet and
    /// has no deletion prize.
    pub fn create_data_objects(
        &self,
        object_creation_list: &Vec<DataObjectCreationParameters>,
    ) -> (candidates: DataObjectCandidates)
        requires
            self@.next_data_object_id + object_creation_list@.len() <= DataObjectId::MAX,
        ensures
            candidates.next_data_object_id == self@.next_data_object_id
                + object_creation_list@.len(),
            candidates.data_object_ids@ == created_ids(
                self@.next_data_object_id,
                object_creation_list@.len(),
            ),
            candidates.data_objects_map@.map_values(|object: DataObject| object@)
                == created_objects(
                Seq::new(object_creation_list@.len(), |i: int| object_creation_list@[i]@),
                self@.next_data_object_id,
            ),
    {
        let first_id = self.next_data_object_id;
        let ghost params = Seq::new(
            object_creation_list@.len(),
            |i: int| object_creation_list@[i]@,
        );
        let mut next_data_object_id = first_id;
        let mut data_objects_map: BTreeMap<DataObjectId, DataObject> = BTreeMap::new();
        let mut data_object_ids: Vec<DataObjectId> = Vec::new();
        let mut i: usize = 0;
        while i < object_creation_list.len()
            invariant
                i <= object_creation_list.len(),
                first_id + object_creation_list@.len() <= DataObjectId::MAX,
                next_data_object_id == first_id + i,
                params == Seq::new(
                    object_creation_list@.len(),
                    |i: int| object_creation_list@[i]@,
                ),
                data_object_ids@ == created_ids(first_id, i as nat),
                forall|id: DataObjectId|
                    data_objects_map@.contains_key(id) <==> first_id <= id < first_id + i,
                forall|id: DataObjectId|
                    first_id <= id < first_id + i ==> (#[trigger] data_objects_map@[id])@
                        == created_object(params[id - first_id]),
            decreases object_creation_list.len() - i,
        {
            let object_params = &object_creation_list[i];
            let object = DataObject {
                accepted: false,
                deletion_prize: 0,
                size: object_params.size,
                ipfs_content_id: copy_of(&object_params.ipfs_content_id),
            };
            data_objects_map.insert(next_data_object_id, object);
            data_object_ids.push(next_data_object_id);
            next_data_object_id = next_data_object_id + 1;
            i = i + 1;
        }
        DataObjectCandidates { next_data_object_id, data_objects_map, data_object_ids }
    }

    /// Stores `bag` as the static bag `bag_id`.
    pub fn save_static_bag(&mut self, bag_id: &StaticBagId, bag: StaticBag)
        ensures
            final(self)@ == (ModuleState { council_bag: bag@, ..old(self)@ }),
    {
        match bag_id {
            StaticBagId::Council => {
                self.council_bag = bag;
            },
        }
    }

    /// Uploads data objects for the member behind `account_id`: once the
    /// parameters are found valid, the new objects lie in the council's
    /// bag under the next ids, which are returned in order.
    pub fn upload(
        &mut self,
        account_id: AccountId,
        params: &UploadParametersObject,
    ) -> (outcome: Result<Vec<DataObjectId>, Error>)
        requires
            old(self)@.next_data_object_id + params@.object_creation_list.len()
                <= DataObjectId::MAX,
        ensures
            match outcome {
                Ok(ids) => old(self)@.upload_refusal(params@, account_id) is None && ids@
                    == created_ids(
                    old(self)@.next_data_object_id,
                    params@.object_creation_list.len(),
                ),
                Err(error) => old(self)@.upload_refusal(params@, account_id) == Some(error),
            },
            final(self)@ == old(self)@.after_upload(params@, account_id),
    {
        if let Err(error) = self.validate_upload_parameters(params, account_id) {
            return Err(error);
        }
        let ghost list = params@.object_creation_list;
        let ghost first_id = self.next_data_object_id;
        let ghost held = self.council_bag.objects@;
        let mut data = self.create_data_objects(&params.object_creation_list);
        self.next_data_object_id = data.next_data_object_id;
        let count = data.data_object_ids.len();
        proof {
            assert forall|id: DataObjectId|
                data.data_objects_map@.contains_key(id) <==> first_id <= id < first_id
                    + count by {
                assert(data.data_objects_map@.map_values(|object: DataObject| object@).contains_key(
                    id,
                ) <==> data.data_objects_map@.contains_key(id));
            }
            assert forall|id: DataObjectId| first_id <= id < first_id + count implies (
            #[trigger] data.data_objects_map@[id])@ == created_object(list[id - first_id]) by {
                assert(data.data_objects_map@.map_values(|object: DataObject| object@)[id]
                    == data.data_objects_map@[id]@);
            }
        }
        let mut k: usize = 0;
        while k < count
            invariant
                k <= count,
                count == list.len(),
                first_id + count <= DataObjectId::MAX,
                data.data_object_ids@ == created_ids(first_id, count as nat),
                forall|id: DataObjectId|
                    data.data_objects_map@.contains_key(id) <==> first_id + k <= id < first_id
                        + count,
                forall|id: DataObjectId|
                    first_id + k <= id < first_id + count ==> (
                    #[trigger] data.data_objects_map@[id])@ == created_object(
                        list[id - first_id],
                    ),
                forall|id: DataObjectId|
                    self.council_bag.objects@.contains_key(id) <==> held.contains_key(id) || (
                    first_id <= id < first_id + k),
                forall|id: DataObjectId|
                    first_id <= id < first_id + k ==> (#[trigger] self.council_bag.objects@[id])@
                        == created_object(list[id - first_id]),
                forall|id: DataObjectId|
                    held.contains_key(id) && !(first_id <= id < first_id + k) ==> (
                    #[trigger] self.council_bag.objects@[id]) == held[id],
                self.council_bag.stored_by == old(self).council_bag.stored_by,
                self.max_storage_bucket_number == old(self).max_storage_bucket_number,
                self.max_number_of_data_objects_per_bag == old(
                    self,
                ).max_number_of_data_objects_per_bag,
                self.next_storage_bucket_id == old(self).next_storage_bucket_id,
                self.next_data_object_id == first_id + count,
                self.storage_buckets_number == old(self).storage_buckets_number,
                self.storage_bucket_by_id == old(self).storage_bucket_by_id,
            decreases count - k,
        {
            let id = data.data_object_ids[k];
            let taken = data.data_objects_map.remove(&id);
            if let Some(object) = taken {
                self.council_bag.objects.insert(id, object);
            }
            k = k + 1;
        }
        proof {
            let expected = old(self)@.after_upload(params@, account_id);
            assert(self@.council_bag.objects =~= expected.council_bag.objects);
        }
        Ok(data.data_object_ids)
    }

    /// Creates a storage bucket under the next id, with an invitation for
    /// `invite_worker` if one is given, and returns the id. There must be
    /// room for one more bucket.
    pub fn create_storage_bucket(
        &mut self,
        invite_worker: Option<WorkerId>,
        accepting_new_data_objects: bool,
        voucher: Voucher,
    ) -> (outcome: Result<StorageBucketId, Error>)
        requires
            old(self)@.next_storage_bucket_id < StorageBucketId::MAX,
        ensures
            outcome == match old(self)@.create_storage_bucket_refusal() {
                Some(error) => Err::<StorageBucketId, Error>(error),
                None => Ok(old(self)@.next_storage_bucket_id),
            },
            final(self)@ == old(self)@.after_create_storage_bucket(
                invite_worker,
                accepting_new_data_objects,
                voucher,
            ),
    {
        let buckets_number = self.storage_buckets_number;
        if buckets_number >= self.max_storage_bucket_number {
            return Err(Error::MaxStorageNumberLimitExceeded);
        }
        let operator_status = match invite_worker {
            Some(worker_id) => StorageBucketOperatorStatus::InvitedStorageWorker(worker_id),
            None => StorageBucketOperatorStatus::Missing,
        };
        let storage_bucket = StorageBucket {
            operator_status,
            accepting_new_bags: accepting_new_data_objects,
            number_of_pending_data_objects: 0,
            voucher,
        };
        let storage_bucket_id = self.next_storage_bucket_id;
        self.storage_buckets_number = buckets_number + 1;
        self.next_storage_bucket_id = storage_bucket_id + 1;
        self.storage_bucket_by_id.insert(storage_bucket_id, storage_bucket);
        Ok(storage_bucket_id)
    }

    /// Gives static bags to storage buckets: every assignment is applied
    /// in order, so the council's bag ends up with the buckets of the last
    /// one. Without an assignment the call is refused.
    pub fn update_storage_buckets_for_static_bags(
        &mut self,
        params: &UpdateStorageBucketForStaticBagsParams,
    ) -> (outcome: Result<(), Error>)
        ensures
            outcome == if params.bags@.len() == 0 {
                Err::<(), Error>(Error::UpdateStorageBucketForStaticBagsParamsIsEmpty)
            } else {
                Ok(())
            },
            final(self)@ == if params.bags@.len() == 0 {
                old(self)@
            } else {
                old(self)@.stored_by(params.bags@.last().buckets@)
            },
    {
        if params.bags.len() == 0 {
            return Err(Error::UpdateStorageBucketForStaticBagsParamsIsEmpty);
        }
        let mut k: usize = 0;
        while k < params.bags.len()
            invariant
                k <= params.bags.len(),
                params.bags@.len() > 0,
                self@ == if k == 0 {
                    old(self)@
                } else {
                    old(self)@.stored_by(params.bags@[k - 1].buckets@)
                },
            decreases params.bags.len() - k,
        {
            let assignment = &params.bags[k];
            match assignment.bag_id {
                StaticBagId::Council => {
                    self.council_bag.stored_by = assignment.buckets.clone();
                },
            }
            k = k + 1;
        }
        Ok(())
    }

    /// Makes `worker_id` the operator of the bucket `storage_bucket_id`.
    /// The bucket must exist and hold an invitation for that worker.
    pub fn accept_storage_bucket_invitation(
        &mut self,
        worker_id: WorkerId,
        storage_bucket_id: StorageBucketId,
    ) -> (outcome: Result<(), Error>)
        ensures
            outcome == match old(self)@.accept_invitation_refusal(worker_id, storage_bucket_id) {
                Some(error) => Err::<(), Error>(error),
                None => Ok(()),
            },
            final(self)@ == old(self)@.after_accept_invitation(worker_id, storage_bucket_id),
    {
        let bucket = match self.ensure_storage_bucket_exists(storage_bucket_id) {
            Ok(bucket) => bucket,
            Err(error) => {
                return Err(error);
            },
        };
        if let Err(error) = Self::ensure_bucket_invitation_status(&bucket, worker_id) {
            return Err(error);
        }
        self.storage_bucket_by_id.insert(
            storage_bucket_id,
            StorageBucket {
                operator_status: StorageBucketOperatorStatus::StorageWorker(worker_id),
                accepting_new_bags: bucket.accepting_new_bags,
                number_of_pending_data_objects: bucket.number_of_pending_data_objects,
                voucher: bucket.voucher,
            },
        );
        Ok(())
    }

    /// Takes the metadata of a storage operator and keeps nothing of it.
    pub fn set_storage_operator_metadata(
        &mut self,
        _storage_bucket_id: StorageBucketId,
        _metadata: Vec<u8>,
    )
        ensures
            final(self)@ == old(self)@,
    {
    }

    /// Takes the pending data objects that a worker accepts and changes
    /// nothing.
    pub fn accept_pending_data_objects(
        &mut self,
        _worker_id: WorkerId,
        _objects: AcceptPendingDataObjectsParams,
    )
        ensures
            final(self)@ == old(self)@,
    {
    }
}

/// A list of which a beginning is refused is refused for the same reason
/// as that beginning.
pub proof fn lemma_refusal_stays(
    objects: Seq<super::types::DataObjectCreationParametersView>,
    n: int,
)
    requires
        0 <= n <= objects.len(),
        objects_refusal(objects.take(n)) is Some,
    ensures
        objects_refusal(objects) == objects_refusal(objects.take(n)),
    decreases objects.len() - n,
{
    if n < objects.len() {
        assert(objects.take(n + 1).drop_last() =~= objects.take(n));
        lemma_refusal_stays(objects, n + 1);
    } else {
        assert(objects.take(n) =~= objects);
    }
}

} // verus!
