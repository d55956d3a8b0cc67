//! An identity and grouping registry with a single-edition NFT issuance and
//! retirement pipeline, written against program-derived addresses.
//!
//! Every account the registry owns sits at an address derived from seeds, and
//! every call into the token and metadata programs is signed by a delegated
//! authority that exists only as such an address. The crate computes which
//! accounts a request may touch, what the registry holds afterwards, and which
//! delegated calls are made in which order; performing the calls is left to
//! the host.

pub mod address;
pub mod authority;
pub mod calls;
pub mod descriptor;
pub mod error;
pub mod instruction;
pub mod metadata;
pub mod pipeline;
pub mod records;
pub mod registry;
pub mod requests;

pub use address::{find_program_address, Address};
pub use authority::DelegatedAuthority;
pub use calls::{
    create_master_edition_v3, create_metadata_accounts_v2, BurnEdition, Call, CreateMasterEdition,
    DelegatedCall, Invocation,
};
pub use descriptor::{AnchorCollection, AnchorCreator, AnchorDataV2, AnchorUseMethod, AnchorUses};
pub use error::{Error, ErrorClass};
pub use instruction::{AccountMeta, Instruction, TokenMetadata};
pub use metadata::{Collection, Creator, DataV2};
pub use pipeline::{burn_edition, create_master_edition, Pipeline};
pub use records::{Group, User};
pub use registry::{Account, Registry};
pub use requests::{
    create_group, create_user, delete_user, Allocation, CreateGroup, CreateUser, DeleteUser,
    Refund,
};
