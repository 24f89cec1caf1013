//! Releases of a GitHub repository, and the choice of the archive to download
//! from one.

use vstd::prelude::*;

verus! {

/// A downloadable file attached to a release.
#[derive(Clone, Debug, PartialEq, Eq)]
pub struct ReleaseAsset {
    pub name: String,
    pub download_url: String,
}

/// A published release: its version and its downloadable files.
#[derive(Clone, Debug, PartialEq, Eq)]
pub struct Release {
    pub version: String,
    pub assets: Vec<ReleaseAsset>,
}

/// A release asset by its text.
pub struct AssetView {
    pub name: Seq<char>,
    pub download_url: Seq<char>,
}

/// A release by its text.
pub struct ReleaseView {
    pub version: Seq<char>,
    pub assets: Seq<AssetView>,
}

impl View for ReleaseAsset {
    type V = AssetView;

    open spec fn view(&self) -> AssetView {
        AssetView { name: self.name@, download_url: self.download_url@ }
    }
}

impl View for Release {
    type V = ReleaseView;

    open spec fn view(&self) -> ReleaseView {
        ReleaseView {
            version: self.version@,
            assets: self.assets@.map_values(|a: ReleaseAsset| a@),
        }
    }
}

/// The index of the first asset named `name`, if there is one.
pub open spec fn first_named(assets: Seq<AssetView>, name: Seq<char>) -> Option<int>
    decreases assets.len(),
{
    if assets.len() == 0 {
        None
    } else if assets[0].name == name {
        Some(0)
    } else {
        match first_named(assets.drop_first(), name) {
            Some(i) => Some(i + 1),
            None => None,
        }
    }
}

/// `first_named` picks the first asset with the name, and finds none only when
/// no asset has it.
pub proof fn law_first_named(assets: Seq<AssetView>, name: Seq<char>)
    ensures
        match first_named(assets, name) {
            Some(i) => 0 <= i < assets.len() && assets[i].name == name
                && forall|k: int| 0 <= k < i ==> assets[k].name != name,
            None => forall|k: int| 0 <= k < assets.len() ==> assets[k].name != name,
        },
    decreases assets.len(),
{
    if assets.len() > 0 {
        law_first_named(assets.drop_first(), name);
        if assets[0].name != name {
            match first_named(assets.drop_first(), name) {
                Some(i) => {
                    assert forall|k: int| 0 <= k < i + 1 implies assets[k].name != name by {
                        if k > 0 {
                            assert(assets[k] == assets.drop_first()[k - 1]);
                        }
                    }
                },
                None => {
                    assert forall|k: int| 0 <= k < assets.len() implies assets[k].name != name by {
                        if k > 0 {
                            assert(assets[k] == assets.drop_first()[k - 1]);
                        }
                    }
                },
            }
        }
    }
}

/// The name of the DotRush archive that holds `module`:
/// `DotRush.Bundle.<module>.zip`. Bundles are framework-dependent builds, so
/// there is one archive per module and no platform suffix.
pub open spec fn bundle_name(module: Seq<char>) -> Seq<char> {
    "DotRush.Bundle."@ + module + ".zip"@
}

/// The error given when a release has no asset of the wanted name.
pub open spec fn asset_missing_message(asset: Seq<char>, project: Seq<char>, version: Seq<char>) -> Seq<char> {
    "Asset '"@ + asset + "' not found in "@ + project + " release "@ + version
}

/// The error given when the download of an asset failed with `cause`.
pub open spec fn download_failed_message(asset: Seq<char>, cause: Seq<char>) -> Seq<char> {
    "Failed to download '"@ + asset + "': "@ + cause
}

/// The archive name of a DotRush module.
pub fn bundle_asset_name(module: &str) -> (r: String)
    ensures
        r@ == bundle_name(module@),
{
    String::from_str("DotRush.Bundle.").concat(module).concat(".zip")
}

/// The position of the first asset named `name`.
pub fn find_asset(assets: &Vec<ReleaseAsset>, name: &str) -> (r: Option<usize>)
    ensures
        match r {
            Some(i) => first_named(assets@.map_values(|a: ReleaseAsset| a@), name@) == Some(i as int),
            None => first_named(assets@.map_values(|a: ReleaseAsset| a@), name@) is None,
        },
{
    let ghost views = assets@.map_values(|a: ReleaseAsset| a@);
    proof {
        law_first_named(views, name@);
    }
    let mut i: usize = 0;
    while i < assets.len()
        invariant
            i <= assets@.len(),
            views == assets@.map_values(|a: ReleaseAsset| a@),
            forall|k: int| 0 <= k < i ==> views[k].name != name@,
            match first_named(views, name@) {
                Some(j) => 0 <= j < views.len() && views[j].name == name@
                    && forall|k: int| 0 <= k < j ==> views[k].name != name@,
                None => forall|k: int| 0 <= k < views.len() ==> views[k].name != name@,
            },
        decreases assets@.len() - i,
    {
        if crate::text::same_text(assets[i].name.as_str(), name) {
            assert(views[i as int].name == name@);
            return Some(i);
        }
        i = i + 1;
    }
    None
}

/// The error for a release without the wanted asset.
pub fn asset_missing(asset: &str, project: &str, version: &str) -> (r: String)
    ensures
        r@ == asset_missing_message(asset@, project@, version@),
{
    String::from_str("Asset '").concat(asset).concat("' not found in ").concat(project).concat(
        " release ",
    ).concat(version)
}

/// The error for a failed download.
pub fn download_failed(asset: &str, cause: &str) -> (r: String)
    ensures
        r@ == download_failed_message(asset@, cause@),
{
    String::from_str("Failed to download '").concat(asset).concat("': ").concat(cause)
}

} // verus!
