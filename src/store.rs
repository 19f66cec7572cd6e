//! Per-version metadata: the list of platform builds of one version, how a
//! published artifact enters it, and the web-asset descriptor of a plugin
//! version.

use crate::digest::{checksum, hex_of, sha256_of};
use crate::layout::{download_url, download_url_of, web_ui_url, web_ui_url_of};
use crate::model::{EntityKind, PackageInfo, PlatformBuild, PluginInfo, WebUiMeta};
use vstd::prelude::*;

verus! {

/// Relies on `std::time::SystemTime::now`: seconds since the Unix epoch,
/// `None` when the clock reads earlier than the epoch.
#[verifier::external_body]
fn system_unix_secs() -> (r: Option<u64>) {
    match std::time::SystemTime::now().duration_since(std::time::UNIX_EPOCH) {
        Ok(d) => Some(d.as_secs()),
        Err(_) => None,
    }
}

/// The current time in seconds since the Unix epoch, or 0 when the clock
/// reads earlier than the epoch.
pub fn now_unix() -> u64 {
    match system_unix_secs() {
        Some(s) => s,
        None => 0,
    }
}

/// No two builds of a version share a platform key.
pub open spec fn platforms_unique(builds: Seq<PlatformBuild>) -> bool {
    forall|i: int, j: int|
        0 <= i < builds.len() && 0 <= j < builds.len() && i != j ==> builds[i].platform@
            != builds[j].platform@
}

/// Some build in the list is for `platform`.
pub open spec fn has_platform(builds: Seq<PlatformBuild>, platform: Seq<char>) -> bool {
    exists|i: int| 0 <= i < builds.len() && builds[i].platform@ == platform
}

/// `i` is the first position of a build for `platform`.
pub open spec fn first_platform_at(builds: Seq<PlatformBuild>, platform: Seq<char>, i: int) -> bool {
    &&& 0 <= i < builds.len()
    &&& builds[i].platform@ == platform
    &&& forall|j: int| 0 <= j < i ==> builds[j].platform@ != platform
}

/// `after` is `before` with `build` put in: in place of the first build for
/// the same platform, or appended when there is none.
pub open spec fn build_put(
    before: Seq<PlatformBuild>,
    build: PlatformBuild,
    after: Seq<PlatformBuild>,
) -> bool {
    if has_platform(before, build.platform@) {
        exists|i: int|
            first_platform_at(before, build.platform@, i) && after == before.update(i, build)
    } else {
        after == before.push(build)
    }
}

/// `b` is the build recorded for `data` published as `platform` of
/// `version` of entity `id`.
pub open spec fn build_for(
    b: PlatformBuild,
    kind: EntityKind,
    id: Seq<char>,
    version: Seq<char>,
    platform: Seq<char>,
    data: Seq<u8>,
) -> bool {
    &&& b.platform@ == platform
    &&& b.download_url@ == download_url_of(kind, id, version, platform)
    &&& b.size_bytes as int == data.len()
    &&& b.checksum@ == hex_of(sha256_of(data))
    &&& b.signature is None
}

/// The build record for `data` published as `platform` of `version` of
/// entity `id`: its size, checksum and download URL.
pub fn make_build(kind: EntityKind, id: &str, version: &str, platform: &str, data: &[u8]) -> (r:
    PlatformBuild)
    ensures
        build_for(r, kind, id@, version@, platform@, data@),
{
    PlatformBuild {
        platform: String::from_str(platform),
        download_url: download_url(kind, id, version, platform),
        size_bytes: data.len() as u64,
        checksum: checksum(data),
        signature: None,
    }
}

/// Puts `build` into the list: it replaces the first build for the same
/// platform, or is appended when there is none.
pub fn put_build(builds: &mut Vec<PlatformBuild>, build: PlatformBuild)
    ensures
        build_put(old(builds)@, build, final(builds)@),
        platforms_unique(old(builds)@) ==> platforms_unique(final(builds)@),
{
    let mut i: usize = 0;
    while i < builds.len()
        invariant
            builds@ == old(builds)@,
            i <= builds@.len(),
            forall|j: int| 0 <= j < i ==> builds@[j].platform@ != build.platform@,
        decreases builds@.len() - i,
    {
        if builds[i].platform == build.platform {
            proof {
                assert(first_platform_at(builds@, build.platform@, i as int));
            }
            let ghost before = builds@;
            builds[i] = build;
            proof {
                assert(builds@ == before.update(i as int, build));
                assert(has_platform(before, build.platform@));
                assert(first_platform_at(before, build.platform@, i as int) && builds@ == before.update(
                    i as int,
                    build,
                ));
                if platforms_unique(before) {
                    assert forall|a: int, b: int|
                        0 <= a < builds@.len() && 0 <= b < builds@.len() && a != b implies builds@[a].platform@
                        != builds@[b].platform@ by {
                        if a != i && b != i {
                            assert(before[a].platform@ != before[b].platform@);
                        } else if a == i {
                            assert(before[b].platform@ != before[i as int].platform@);
                        } else {
                            assert(before[a].platform@ != before[i as int].platform@);
                        }
                    }
                }
            }
            return;
        }
        i = i + 1;
    }
    let ghost before = builds@;
    builds.push(build);
    proof {
        assert(!has_platform(before, build.platform@));
    }
}

/// `r` is the metadata `existing` (or, when there is none, a fresh record
/// of `id`, `version` stamped `now`) with build `b` put in.
pub open spec fn package_info_after(
    existing: Option<PackageInfo>,
    b: PlatformBuild,
    id: Seq<char>,
    version: Seq<char>,
    now: u64,
    r: PackageInfo,
) -> bool {
    match existing {
        Some(e) => {
            &&& r.id == e.id
            &&& r.version == e.version
            &&& r.published_at == e.published_at
            &&& r.changelog == e.changelog
            &&& build_put(e.platforms@, b, r.platforms@)
        },
        None => {
            &&& r.id@ == id
            &&& r.version@ == version
            &&& r.published_at == now
            &&& r.changelog is None
            &&& r.platforms@ == seq![b]
        },
    }
}

/// A package version's metadata after `data` was published as its
/// `platform` build: the stored metadata, or a fresh record stamped `now`
/// when there is none, with the new build put in.
pub fn publish_package_build(
    existing: Option<PackageInfo>,
    id: &str,
    version: &str,
    platform: &str,
    data: &[u8],
    now: u64,
) -> (r: PackageInfo)
    ensures
        exists|b: PlatformBuild|
            build_for(b, EntityKind::Package, id@, version@, platform@, data@) && #[trigger] package_info_after(
                existing,
                b,
                id@,
                version@,
                now,
                r,
            ),
        existing matches Some(e) && platforms_unique(e.platforms@) ==> platforms_unique(
            r.platforms@,
        ),
{
    let mut info = match existing {
        Some(e) => e,
        None => PackageInfo {
            id: String::from_str(id),
            version: String::from_str(version),
            platforms: Vec::new(),
            published_at: now,
            changelog: None,
        },
    };
    let kind = EntityKind::Package;
    let build = make_build(kind, id, version, platform, data);
    let ghost b = build;
    put_build(&mut info.platforms, build);
    proof {
        if existing is None {
            assert(info.platforms@ =~= seq![b]);
        }
        assert(build_for(b, kind, id@, version@, platform@, data@));
        assert(package_info_after(existing, b, id@, version@, now, info));
    }
    info
}

/// `r` is the metadata `existing` (or, when there is none, a fresh record
/// of `id`, `version` stamped `now`) with build `b` put in.
pub open spec fn plugin_info_after(
    existing: Option<PluginInfo>,
    b: PlatformBuild,
    id: Seq<char>,
    version: Seq<char>,
    now: u64,
    r: PluginInfo,
) -> bool {
    match existing {
        Some(e) => {
            &&& r.id == e.id
            &&& r.version == e.version
            &&& r.published_at == e.published_at
            &&& r.web_ui == e.web_ui
            &&& build_put(e.platforms@, b, r.platforms@)
        },
        None => {
            &&& r.id@ == id
            &&& r.version@ == version
            &&& r.published_at == now
            &&& r.web_ui is None
            &&& r.platforms@ == seq![b]
        },
    }
}

/// A plugin version's metadata after `data` was published as its
/// `platform` build: the stored metadata, or a fresh record stamped `now`
/// when there is none, with the new build put in.
pub fn publish_plugin_build(
    existing: Option<PluginInfo>,
    id: &str,
    version: &str,
    platform: &str,
    data: &[u8],
    now: u64,
) -> (r: PluginInfo)
    ensures
        exists|b: PlatformBuild|
            build_for(b, EntityKind::Plugin, id@, version@, platform@, data@) && #[trigger] plugin_info_after(
                existing,
                b,
                id@,
                version@,
                now,
                r,
            ),
        existing matches Some(e) && platforms_unique(e.platforms@) ==> platforms_unique(
            r.platforms@,
        ),
{
    let mut info = match existing {
        Some(e) => e,
        None => PluginInfo {
            id: String::from_str(id),
            version: String::from_str(version),
            platforms: Vec::new(),
            published_at: now,
            web_ui: None,
        },
    };
    let kind = EntityKind::Plugin;
    let build = make_build(kind, id, version, platform, data);
    let ghost b = build;
    put_build(&mut info.platforms, build);
    proof {
        if existing is None {
            assert(info.platforms@ =~= seq![b]);
        }
        assert(build_for(b, kind, id@, version@, platform@, data@));
        assert(plugin_info_after(existing, b, id@, version@, now, info));
    }
    info
}

/// The web-asset descriptor of a plugin version, given the size of its
/// stored asset (`None` when no asset is stored).
pub fn web_ui_meta(id: &str, version: &str, asset_size: Option<u64>) -> (r: Option<WebUiMeta>)
    ensures
        match asset_size {
            None => r is None,
            Some(n) => r matches Some(m) && m.entry_url@ == web_ui_url_of(id@, version@)
                && m.size_bytes == n,
        },
{
    match asset_size {
        None => None,
        Some(n) => Some(WebUiMeta { entry_url: web_ui_url(id, version), size_bytes: n }),
    }
}

/// After `data` is published as `platform` of a package version, that
/// version lists a build for `platform` whose checksum is the checksum of
/// exactly `data` and whose size is the length of `data`.
pub proof fn lemma_published_checksum(
    existing: Option<PackageInfo>,
    id: Seq<char>,
    version: Seq<char>,
    platform: Seq<char>,
    data: Seq<u8>,
    now: u64,
    r: PackageInfo,
)
    requires
        exists|b: PlatformBuild|
            build_for(b, EntityKind::Package, id, version, platform, data) && #[trigger] package_info_after(
                existing,
                b,
                id,
                version,
                now,
                r,
            ),
    ensures
        exists|i: int|
            0 <= i < r.platforms@.len() && #[trigger] r.platforms@[i].platform@ == platform
                && r.platforms@[i].checksum@ == hex_of(sha256_of(data))
                && r.platforms@[i].size_bytes as int == data.len(),
{
    let b = choose|b: PlatformBuild|
        build_for(b, EntityKind::Package, id, version, platform, data) && #[trigger] package_info_after(
            existing,
            b,
            id,
            version,
            now,
            r,
        );
    match existing {
        Some(e) => {
            if has_platform(e.platforms@, platform) {
                let i = choose|i: int|
                    first_platform_at(e.platforms@, platform, i) && r.platforms@ == e.platforms@.update(
                        i,
                        b,
                    );
                assert(r.platforms@[i] == b);
            } else {
                assert(r.platforms@[e.platforms@.len() as int] == b);
            }
        },
        None => {
            assert(r.platforms@[0] == b);
        },
    }
}

/// Publishing again a platform that a package version already has replaces
/// that build where it stands: the version keeps the same number of builds,
/// and every other build is unchanged.
pub proof fn lemma_republish_in_place(
    e: PackageInfo,
    id: Seq<char>,
    version: Seq<char>,
    platform: Seq<char>,
    data: Seq<u8>,
    now: u64,
    r: PackageInfo,
)
    requires
        has_platform(e.platforms@, platform),
        exists|b: PlatformBuild|
            build_for(b, EntityKind::Package, id, version, platform, data) && #[trigger] package_info_after(
                Some(e),
                b,
                id,
                version,
                now,
                r,
            ),
    ensures
        r.platforms@.len() == e.platforms@.len(),
        exists|i: int|
            #![trigger r.platforms@[i]]
            0 <= i < e.platforms@.len() && e.platforms@[i].platform@ == platform && build_for(
                r.platforms@[i],
                EntityKind::Package,
                id,
                version,
                platform,
                data,
            ) && forall|j: int|
                0 <= j < e.platforms@.len() && j != i ==> r.platforms@[j] == e.platforms@[j],
{
    let b = choose|b: PlatformBuild|
        build_for(b, EntityKind::Package, id, version, platform, data) && #[trigger] package_info_after(
            Some(e),
            b,
            id,
            version,
            now,
            r,
        );
    let i = choose|i: int|
        first_platform_at(e.platforms@, platform, i) && r.platforms@ == e.platforms@.update(i, b);
    assert(r.platforms@[i] == b);
}

} // verus!
