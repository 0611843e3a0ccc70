//! Plain data of the storage module.

use std::collections::{BTreeMap, BTreeSet};
use vstd::prelude::*;

verus! {

/// Identifier of a data object.
pub type DataObjectId = u64;

/// Identifier of a storage bucket.
pub type StorageBucketId = u64;

/// Identifier of a worker of the storage working group.
pub type WorkerId = u64;

/// Identifier of an account.
pub type AccountId = u64;

/// An amount of balance.
pub type Balance = u64;

/// Mathematical value of a [`DataObject`].
pub struct DataObjectView {
    pub accepted: bool,
    pub deletion_prize: Balance,
    pub size: u64,
    pub ipfs_content_id: Seq<u8>,
}

/// A single static binary object. The module keeps an index of such
/// objects and knows nothing of what they hold.
#[derive(Clone, Debug, PartialEq, Eq)]
pub struct DataObject {
    /// Whether a liaison accepted the object.
    pub accepted: bool,
    /// A reward for deleting the object.
    pub deletion_prize: Balance,
    /// Size in bytes.
    pub size: u64,
    /// Content identifier, an IPFS hash.
    pub ipfs_content_id: Vec<u8>,
}

impl View for DataObject {
    type V = DataObjectView;

    open spec fn view(&self) -> DataObjectView {
        DataObjectView {
            accepted: self.accepted,
            deletion_prize: self.deletion_prize,
            size: self.size,
            ipfs_content_id: self.ipfs_content_id@,
        }
    }
}

impl Default for DataObject {
    fn default() -> (object: Self)
        ensures
            object@ == (DataObjectView {
                accepted: false,
                deletion_prize: 0,
                size: 0,
                ipfs_content_id: Seq::empty(),
            }),
    {
        DataObject { accepted: false, deletion_prize: 0, size: 0, ipfs_content_id: Vec::new() }
    }
}

/// Mathematical value of a [`StaticBag`].
pub struct StaticBagView {
    pub objects: Map<DataObjectId, DataObjectView>,
    pub stored_by: Set<StorageBucketId>,
}

/// A static bag: data objects and the buckets that store them.
pub struct StaticBag {
    /// The objects of the bag by id.
    pub objects: BTreeMap<DataObjectId, DataObject>,
    /// The buckets that store the bag.
    pub stored_by: BTreeSet<StorageBucketId>,
}

impl View for StaticBag {
    type V = StaticBagView;

    open spec fn view(&self) -> StaticBagView {
        StaticBagView {
            objects: self.objects@.map_values(|object: DataObject| object@),
            stored_by: self.stored_by@,
        }
    }
}

impl Default for StaticBag {
    fn default() -> (bag: Self)
        ensures
            bag@.objects == Map::<DataObjectId, DataObjectView>::empty(),
            bag@.stored_by == Set::<StorageBucketId>::empty(),
    {
        let bag = StaticBag { objects: BTreeMap::new(), stored_by: BTreeSet::new() };
        bag
    }
}

/// Mathematical value of a [`DataObjectCreationParameters`].
pub struct DataObjectCreationParametersView {
    pub size: u64,
    pub ipfs_content_id: Seq<u8>,
}

/// What an uploader says of a data object to be created.
#[derive(Clone, Debug, PartialEq, Eq)]
pub struct DataObjectCreationParameters {
    /// Size in bytes.
    pub size: u64,
    /// Content identifier, an IPFS hash.
    pub ipfs_content_id: Vec<u8>,
}

impl View for DataObjectCreationParameters {
    type V = DataObjectCreationParametersView;

    open spec fn view(&self) -> DataObjectCreationParametersView {
        DataObjectCreationParametersView {
            size: self.size,
            ipfs_content_id: self.ipfs_content_id@,
        }
    }
}

/// Identifier of a static bag.
#[derive(Clone, Copy, Debug, PartialEq, Eq, PartialOrd, Ord, Structural)]
pub enum StaticBagId {
    /// The bag of the council.
    Council,
}

impl Default for StaticBagId {
    fn default() -> (id: Self)
        ensures
            id == StaticBagId::Council,
    {
        StaticBagId::Council
    }
}

/// Identifier of a bag.
#[derive(Clone, Copy, Debug, PartialEq, Eq, PartialOrd, Ord, Structural)]
pub enum BagId {
    /// A static bag.
    StaticBag(StaticBagId),
}

impl Default for BagId {
    fn default() -> (id: Self)
        ensures
            id == BagId::StaticBag(StaticBagId::Council),
    {
        BagId::StaticBag(StaticBagId::Council)
    }
}

/// Mathematical value of an [`UploadParametersObject`].
pub struct UploadParametersView {
    pub authentication_key: Seq<u8>,
    pub bag_id: BagId,
    pub object_creation_list: Seq<DataObjectCreationParametersView>,
    pub deletion_prize_source_account_id: AccountId,
}

/// What an uploader asks for.
#[derive(Clone, Debug, PartialEq, Eq)]
pub struct UploadParametersObject {
    /// Public key used to authenticate the upload to the liaison.
    pub authentication_key: Vec<u8>,
    /// The bag to upload to.
    pub bag_id: BagId,
    /// The objects to create.
    pub object_creation_list: Vec<DataObjectCreationParameters>,
    /// The account that pays the deletion prize.
    pub deletion_prize_source_account_id: AccountId,
}

/// What an uploader asks for.
pub type UploadParameters = UploadParametersObject;

impl View for UploadParametersObject {
    type V = UploadParametersView;

    open spec fn view(&self) -> UploadParametersView {
        UploadParametersView {
            authentication_key: self.authentication_key@,
            bag_id: self.bag_id,
            object_creation_list: Seq::new(
                self.object_creation_list@.len(),
                |i: int| self.object_creation_list@[i]@,
            ),
            deletion_prize_source_account_id: self.deletion_prize_source_account_id,
        }
    }
}

/// The limits of a storage bucket and what is used of them.
#[derive(Clone, Copy, Debug, PartialEq, Eq, Structural)]
pub struct Voucher {
    /// Total size limit.
    pub size_limit: u64,
    /// Limit on the number of objects.
    pub objects_limit: u64,
    /// Size in use.
    pub size_used: u64,
    /// Number of objects in use.
    pub objects_used: u64,
}

impl Default for Voucher {
    fn default() -> (voucher: Self)
        ensures
            voucher == (Voucher { size_limit: 0, objects_limit: 0, size_used: 0, objects_used: 0 }),
    {
        Voucher { size_limit: 0, objects_limit: 0, size_used: 0, objects_used: 0 }
    }
}

/// How a storage bucket stands with its operator, a worker of the storage
/// working group.
#[derive(Clone, Copy, Debug, PartialEq, Eq, Structural)]
pub enum StorageBucketOperatorStatus {
    /// No operator.
    Missing,
    /// A worker was invited.
    InvitedStorageWorker(WorkerId),
    /// A worker accepted the invitation.
    StorageWorker(WorkerId),
}

impl Default for StorageBucketOperatorStatus {
    fn default() -> (status: Self)
        ensures
            status == StorageBucketOperatorStatus::Missing,
    {
        StorageBucketOperatorStatus::Missing
    }
}

/// A commitment to hold some bags for long-term storage.
#[derive(Clone, Copy, Debug, PartialEq, Eq, Structural)]
pub struct StorageBucket {
    /// How the bucket stands with its operator.
    pub operator_status: StorageBucketOperatorStatus,
    /// Whether the bucket takes new bags.
    pub accepting_new_bags: bool,
    /// Number of data objects that are not accepted yet.
    pub number_of_pending_data_objects: u32,
    /// The limits of the bucket.
    pub voucher: Voucher,
}

impl Default for StorageBucket {
    fn default() -> (bucket: Self)
        ensures
            bucket == (StorageBucket {
                operator_status: StorageBucketOperatorStatus::Missing,
                accepting_new_bags: false,
                number_of_pending_data_objects: 0,
                voucher: Voucher { size_limit: 0, objects_limit: 0, size_used: 0, objects_used: 0 },
            }),
    {
        StorageBucket {
            operator_status: StorageBucketOperatorStatus::Missing,
            accepting_new_bags: false,
            number_of_pending_data_objects: 0,
            voucher: Voucher { size_limit: 0, objects_limit: 0, size_used: 0, objects_used: 0 },
        }
    }
}

/// A data object together with the bag it lies in.
#[derive(Clone, Debug, PartialEq, Eq, PartialOrd, Ord)]
pub struct BaggedDataObject<DataObjectId> {
    pub bag_id: BagId,
    pub data_object_id: DataObjectId,
}

/// The storage buckets that are to store one static bag.
pub struct StaticBagAssignment {
    pub bag_id: StaticBagId,
    pub buckets: BTreeSet<StorageBucketId>,
}

/// A new relationship between static bags and storage buckets. The
/// assignments are applied in order, so of two for one bag the later one
/// stands.
pub struct UpdateStorageBucketForStaticBagsParams {
    pub bags: Vec<StaticBagAssignment>,
}

/// The pending data objects that a worker accepts.
pub struct AcceptPendingDataObjectsParams {
    pub bagged_data_objects: BTreeSet<BaggedDataObject<DataObjectId>>,
}

/// Why a call into the storage module was rejected.
#[derive(Clone, Copy, Debug, PartialEq, Eq, Structural)]
pub enum Error {
    /// The number of storage buckets is at its limit.
    MaxStorageNumberLimitExceeded,
    /// Nothing to upload.
    NoObjectsOnUpload,
    /// No storage bucket under the id.
    StorageBucketDoesntExist,
    /// The bucket has no invitation to accept.
    NoStorageBucketInvitation,
    /// The bucket has its operator already.
    StorageProviderAlreadySet,
    /// Another worker was invited.
    DifferentStorageProviderInvited,
    /// No assignment given.
    UpdateStorageBucketForStaticBagsParamsIsEmpty,
    /// An object without a content id.
    EmptyContentId,
    /// An object of size zero.
    ZeroObjectSize,
    /// The account that is to pay the deletion prize is not the uploader's.
    InvalidDeletionPrizeSourceAccount,
    /// The bag would hold more objects than a bag may.
    DataObjectsPerBagLimitExceeded,
}

} // verus!
