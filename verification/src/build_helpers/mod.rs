pub mod common;
pub mod fdependencies;
pub mod gresources;
pub mod manifest;

pub use common::GlobCopySet;
pub use fdependencies::ForeignDependency;
pub use gresources::{File, GResource, GResources, Preprocess};
pub use manifest::{
    ForeignDependenciesDetail, Found, GResourceDetail, GResourceFilesDetail, GResourcesDetail,
};
