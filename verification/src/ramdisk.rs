//! Description of a ramdisk to be provisioned: its geometry, an optional
//! GUID, and where its device root lives.
//!
//! The device driver calls that create, open and destroy the actual
//! ramdisk are the platform layer's; the builder here assembles the
//! request and says which provisioning entry point applies to it.

use vstd::prelude::*;

use crate::status::Status;

verus! {

/// Where the ramdisk's device root comes from.
#[derive(Clone, Copy, Debug, PartialEq, Eq, Structural)]
pub enum DevRoot {
    /// A device directory the caller provided; the open handle itself
    /// stays with the platform layer.
    Provided,
    /// The isolated device manager service, so the ramdisk does not touch
    /// the system's device tree.
    Isolated,
}

/// Which provisioning entry point a ramdisk description calls for.
#[derive(Clone, Copy, Debug, PartialEq, Eq, Structural)]
pub enum RamdiskCreateCall {
    /// Plain creation in the default device root.
    Create,
    /// Creation in the default device root with an initial GUID.
    CreateWithGuid,
    /// Creation under a caller-supplied device root.
    CreateAt,
    /// Creation under a caller-supplied device root with an initial GUID.
    CreateAtWithGuid,
}

/// A type to help construct a [`RamdiskClient`].
pub struct RamdiskClientBuilder {
    block_size: u64,
    block_count: u64,
    dev_root: Option<DevRoot>,
    guid: Option<[u8; 16]>,
}

impl RamdiskClientBuilder {
    /// A new ramdisk builder with the given block size and block count.
    pub fn new(block_size: u64, block_count: u64) -> (r: Self)
        ensures
            r.spec_block_size() == block_size,
            r.spec_block_count() == block_count,
            r.spec_dev_root() is None,
            r.spec_guid() is None,
    {
        Self { block_size, block_count, dev_root: None, guid: None }
    }

    pub closed spec fn spec_block_size(&self) -> u64 {
        self.block_size
    }

    pub closed spec fn spec_block_count(&self) -> u64 {
        self.block_count
    }

    pub closed spec fn spec_dev_root(&self) -> Option<DevRoot> {
        self.dev_root
    }

    pub closed spec fn spec_guid(&self) -> Option<[u8; 16]> {
        self.guid
    }

    /// Use a directory the caller provides as the device root instead of
    /// the environment's.
    pub fn dev_root(self) -> (r: Self)
        ensures
            r.spec_block_size() == self.spec_block_size(),
            r.spec_block_count() == self.spec_block_count(),
            r.spec_dev_root() == Some(DevRoot::Provided),
            r.spec_guid() == self.spec_guid(),
    {
        Self { dev_root: Some(DevRoot::Provided), ..self }
    }

    /// Use the isolated device manager as the device root instead of the
    /// environment's.
    pub fn isolated_dev_root(self) -> (r: Self)
        ensures
            r.spec_block_size() == self.spec_block_size(),
            r.spec_block_count() == self.spec_block_count(),
            r.spec_dev_root() == Some(DevRoot::Isolated),
            r.spec_guid() == self.spec_guid(),
    {
        Self { dev_root: Some(DevRoot::Isolated), ..self }
    }

    /// Initialize the ramdisk with the given GUID, which can be queried
    /// from the ramdisk instance.
    pub fn guid(self, guid: [u8; 16]) -> (r: Self)
        ensures
            r.spec_block_size() == self.spec_block_size(),
            r.spec_block_count() == self.spec_block_count(),
            r.spec_dev_root() == self.spec_dev_root(),
            r.spec_guid() == Some(guid),
    {
        Self { guid: Some(guid), ..self }
    }

    /// Assemble the ramdisk description.  Provisioning it is the platform
    /// layer's work; a provisioning failure is reported there, with the
    /// device's own status.
    pub fn build(self) -> (r: Result<RamdiskClient, Status>)
        ensures
            r matches Ok(c) && c.spec_block_size() == self.spec_block_size()
                && c.spec_block_count() == self.spec_block_count() && c.spec_dev_root()
                == self.spec_dev_root() && c.spec_guid() == self.spec_guid(),
    {
        Ok(
            RamdiskClient {
                block_size: self.block_size,
                block_count: self.block_count,
                dev_root: self.dev_root,
                guid: self.guid,
            },
        )
    }
}

/// A description of one ramdisk: what the platform layer provisions,
/// addresses and finally destroys.
pub struct RamdiskClient {
    block_size: u64,
    block_count: u64,
    dev_root: Option<DevRoot>,
    guid: Option<[u8; 16]>,
}

impl RamdiskClient {
    pub closed spec fn spec_block_size(&self) -> u64 {
        self.block_size
    }

    pub closed spec fn spec_block_count(&self) -> u64 {
        self.block_count
    }

    pub closed spec fn spec_dev_root(&self) -> Option<DevRoot> {
        self.dev_root
    }

    pub closed spec fn spec_guid(&self) -> Option<[u8; 16]> {
        self.guid
    }

    /// A new ramdisk builder with the given block size and block count.
    pub fn builder(block_size: u64, block_count: u64) -> (r: RamdiskClientBuilder)
        ensures
            r.spec_block_size() == block_size,
            r.spec_block_count() == block_count,
            r.spec_dev_root() is None,
            r.spec_guid() is None,
    {
        RamdiskClientBuilder::new(block_size, block_count)
    }

    /// A new ramdisk description with the given geometry, the default
    /// device root and no GUID.
    pub fn create(block_size: u64, block_count: u64) -> (r: Result<Self, Status>)
        ensures
            r matches Ok(c) && c.spec_block_size() == block_size && c.spec_block_count()
                == block_count && c.spec_dev_root() is None && c.spec_guid() is None,
    {
        Self::builder(block_size, block_count).build()
    }

    /// The geometry of the ramdisk: block size and block count.
    pub fn geometry(&self) -> (r: (u64, u64))
        ensures
            r == (self.spec_block_size(), self.spec_block_count()),
    {
        (self.block_size, self.block_count)
    }

    /// The GUID the ramdisk is initialized with, if any.
    pub fn guid(&self) -> (r: Option<[u8; 16]>)
        ensures
            r == self.spec_guid(),
    {
        self.guid
    }

    /// Which provisioning entry point this description calls for: the
    /// device-root variants when a root was chosen, and the GUID variants
    /// when a GUID was given.
    pub fn creation_call(&self) -> (r: RamdiskCreateCall)
        ensures
            r == match (self.spec_dev_root(), self.spec_guid()) {
                (Some(_), Some(_)) => RamdiskCreateCall::CreateAtWithGuid,
                (Some(_), None) => RamdiskCreateCall::CreateAt,
                (None, Some(_)) => RamdiskCreateCall::CreateWithGuid,
                (None, None) => RamdiskCreateCall::Create,
            },
    {
        match (&self.dev_root, &self.guid) {
            (Some(_), Some(_)) => RamdiskCreateCall::CreateAtWithGuid,
            (Some(_), None) => RamdiskCreateCall::CreateAt,
            (None, Some(_)) => RamdiskCreateCall::CreateWithGuid,
            (None, None) => RamdiskCreateCall::Create,
        }
    }
}

} // verus!
