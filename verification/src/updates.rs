//! Connector updates: what the registry offers against what is installed,
//! and the checksum of what was downloaded.

use crate::digest::{sha256_hex, sha256_hex_of};
use crate::json::{
    member, members_view, object_members, opt_text, optional_text_member, optional_text_of,
    parse_object, text_member, text_of, JsonMember, JsonMemberView,
};
use crate::text::{after_last, after_last_in, chars_of, piece, same_text};
use vstd::prelude::*;
use vstd::string::StringExecFns;

verus! {

/// Where the registry of connectors is fetched from.
pub const DEFAULT_REGISTRY_URL: &'static str =
    "https://gist.githubusercontent.com/volod-vana/05c0a53d61ef7d0fcd37e63567fafa3f/raw/0a7d3706fb8ad482239d9eedf4474861a99bf424/registry.json";

/// Seconds for which a cached registry is used without asking again.
pub const REGISTRY_CACHE_SECS: u64 = 3600;

/// The files of a connector, named from the registry's base address.
#[derive(Debug, Clone, PartialEq, Eq)]
pub struct ConnectorFiles {
    pub script: String,
    pub metadata: String,
}

/// The checksums of a connector's files.
#[derive(Debug, Clone, PartialEq, Eq)]
pub struct ConnectorChecksums {
    pub script: String,
    pub metadata: String,
}

/// One connector that the registry offers.
#[derive(Debug, Clone, PartialEq, Eq)]
pub struct RegistryConnector {
    pub id: String,
    pub company: String,
    pub version: String,
    pub name: String,
    pub description: String,
    pub files: ConnectorFiles,
    pub checksums: ConnectorChecksums,
}

/// What the registry offers.
#[derive(Debug, Clone, PartialEq, Eq)]
pub struct Registry {
    pub version: String,
    pub last_updated: String,
    pub base_url: String,
    pub connectors: Vec<RegistryConnector>,
}

/// What the user is told about one connector.
#[derive(Debug, Clone, PartialEq, Eq)]
pub struct ConnectorUpdateInfo {
    pub id: String,
    pub name: String,
    pub description: String,
    pub company: String,
    pub current_version: Option<String>,
    pub latest_version: String,
    pub has_update: bool,
    pub is_new: bool,
}

pub ghost struct ConnectorUpdateInfoView {
    pub id: Seq<char>,
    pub name: Seq<char>,
    pub description: Seq<char>,
    pub company: Seq<char>,
    pub current_version: Option<Seq<char>>,
    pub latest_version: Seq<char>,
    pub has_update: bool,
    pub is_new: bool,
}

impl View for ConnectorUpdateInfo {
    type V = ConnectorUpdateInfoView;

    open spec fn view(&self) -> ConnectorUpdateInfoView {
        ConnectorUpdateInfoView {
            id: self.id@,
            name: self.name@,
            description: self.description@,
            company: self.company@,
            current_version: opt_text(self.current_version),
            latest_version: self.latest_version@,
            has_update: self.has_update,
            is_new: self.is_new,
        }
    }
}

/// What the metadata file of an installed connector states of it.
#[derive(Debug, Clone, PartialEq, Eq)]
pub struct LocalConnector {
    pub id: Option<String>,
    pub version: Option<String>,
}

pub ghost struct LocalConnectorView {
    pub id: Option<Seq<char>>,
    pub version: Option<Seq<char>>,
}

impl View for LocalConnector {
    type V = LocalConnectorView;

    open spec fn view(&self) -> LocalConnectorView {
        LocalConnectorView { id: opt_text(self.id), version: opt_text(self.version) }
    }
}

/// What an object's members state of an installed connector: its name must
/// be a string; its identifier and its version are optional strings.
pub open spec fn local_connector_of(members: Seq<JsonMemberView>) -> Option<LocalConnectorView> {
    match (
        text_of(member(members, "name"@)),
        optional_text_of(member(members, "id"@)),
        optional_text_of(member(members, "version"@)),
    ) {
        (Some(_), Some(id), Some(version)) => Some(LocalConnectorView { id, version }),
        _ => None,
    }
}

pub open spec fn opt_local(c: Option<LocalConnector>) -> Option<LocalConnectorView> {
    match c {
        Some(x) => Some(x@),
        None => None,
    }
}

/// Reads what a metadata file states from the members of its object.
pub fn decode_local_connector(members: &Vec<JsonMember>) -> (r: Option<LocalConnector>)
    ensures
        opt_local(r) == local_connector_of(members_view(members@)),
{
    match (
        text_member(members, "name"),
        optional_text_member(members, "id"),
        optional_text_member(members, "version"),
    ) {
        (Some(_), Some(id), Some(version)) => Some(LocalConnector { id, version }),
        _ => None,
    }
}

/// What a metadata file states of an installed connector; none where its
/// text is no metadata.
pub fn parse_local_connector(text: &str) -> (r: Option<LocalConnector>)
    ensures
        opt_local(r) == match object_members(text@) {
            Some(members) => local_connector_of(members),
            None => None,
        },
{
    match parse_object(text) {
        Some(members) => decode_local_connector(&members),
        None => None,
    }
}

/// Whether the second of two semantic versions is the greater in the order
/// of `semver::Version`, which ranks versions by precedence and, among
/// versions of the same precedence, by their build metadata; none where one
/// of the two is no semantic version.
pub uninterp spec fn semver_newer_of(current: Seq<char>, candidate: Seq<char>) -> Option<bool>;

/// Calls `semver::Version::parse` on both texts and compares the versions
/// with `>`. Trusted: the result is a function of the two texts alone.
#[verifier::external_body]
pub(crate) fn semver_newer(current: &str, candidate: &str) -> (r: Option<bool>)
    ensures
        r == semver_newer_of(current@, candidate@),
{
    match (semver::Version::parse(current), semver::Version::parse(candidate)) {
        (Ok(a), Ok(b)) => Some(b > a),
        _ => None,
    }
}

/// Whether `v2` is a newer version than `v1`: the greater of the two in
/// the order of semantic versions. Texts that are no semantic versions are
/// never newer.
pub open spec fn newer_version(v1: Seq<char>, v2: Seq<char>) -> bool {
    semver_newer_of(v1, v2) == Some(true)
}

/// What a comparison of two versions comes to.
pub fn newer_from(compared: Option<bool>) -> (r: bool)
    ensures
        r == (compared == Some(true)),
{
    match compared {
        Some(b) => b,
        None => false,
    }
}

pub fn is_newer_version(v1: &str, v2: &str) -> (r: bool)
    ensures
        r == newer_version(v1@, v2@),
{
    newer_from(semver_newer(v1, v2))
}

/// The checksum of a file as registries write it: `sha256:` and the digest.
pub open spec fn checksum_of(data: Seq<u8>) -> Seq<char> {
    "sha256:"@ + sha256_hex_of(data)
}

pub fn calculate_checksum(data: &[u8]) -> (r: String)
    ensures
        r@ == checksum_of(data@),
{
    let digest = sha256_hex(data);
    let mut out = String::new();
    out.append("sha256:");
    out.append(digest.as_str());
    assert(out@ =~= checksum_of(data@));
    out
}

/// Whether a file has the checksum that was expected of it.
pub fn verify_checksum(data: &[u8], expected: &str) -> (r: bool)
    ensures
        r == (checksum_of(data@) == expected@),
{
    let actual = calculate_checksum(data);
    same_text(actual.as_str(), expected)
}

/// Whether a registry that was cached `age_secs` seconds ago is still used.
pub fn cache_is_fresh(age_secs: u64) -> (r: bool)
    ensures
        r == (age_secs <= REGISTRY_CACHE_SECS),
{
    age_secs <= REGISTRY_CACHE_SECS
}

/// What is told about a connector of the registry: it has an update where a
/// version is installed and the offered one is newer; it is new where it is
/// not installed. A connector that is neither is not mentioned.
pub open spec fn update_of(
    connector: RegistryConnector,
    installed: bool,
    current_version: Option<Seq<char>>,
    newer: bool,
) -> Option<ConnectorUpdateInfoView> {
    let has_update = current_version is Some && newer;
    if has_update || !installed {
        Some(
            ConnectorUpdateInfoView {
                id: connector.id@,
                name: connector.name@,
                description: connector.description@,
                company: connector.company@,
                current_version,
                latest_version: connector.version@,
                has_update,
                is_new: !installed,
            },
        )
    } else {
        None
    }
}

pub open spec fn opt_info(i: Option<ConnectorUpdateInfo>) -> Option<ConnectorUpdateInfoView> {
    match i {
        Some(x) => Some(x@),
        None => None,
    }
}

/// What is told about a connector, the versions having been compared
/// already: `newer` tells whether the offered version is the newer one.
pub fn update_from(
    connector: &RegistryConnector,
    installed: bool,
    current_version: Option<String>,
    newer: bool,
) -> (r: Option<ConnectorUpdateInfo>)
    ensures
        opt_info(r) == update_of(*connector, installed, opt_text(current_version), newer),
{
    let has_update = current_version.is_some() && newer;
    if has_update || !installed {
        Some(
            ConnectorUpdateInfo {
                id: connector.id.clone(),
                name: connector.name.clone(),
                description: connector.description.clone(),
                company: connector.company.clone(),
                current_version,
                latest_version: connector.version.clone(),
                has_update,
                is_new: !installed,
            },
        )
    } else {
        None
    }
}

/// Whether the offered version of a connector is newer than the installed
/// one.
pub open spec fn offered_is_newer(connector: RegistryConnector, current: Option<Seq<char>>) -> bool {
    match current {
        Some(v) => newer_version(v, connector.version@),
        None => false,
    }
}

/// What is told about a connector of the registry.
pub fn connector_update(
    connector: &RegistryConnector,
    installed: bool,
    current_version: Option<String>,
) -> (r: Option<ConnectorUpdateInfo>)
    ensures
        opt_info(r) == update_of(
            *connector,
            installed,
            opt_text(current_version),
            offered_is_newer(*connector, opt_text(current_version)),
        ),
{
    let newer = match &current_version {
        Some(v) => is_newer_version(v.as_str(), connector.version.as_str()),
        None => false,
    };
    update_from(connector, installed, current_version, newer)
}

/// The place of the connector `id` in a registry.
pub fn find_connector(registry: &Registry, id: &str) -> (r: Option<usize>)
    ensures
        match r {
            Some(i) => i < registry.connectors.len() && registry.connectors@[i as int].id@ == id@
                && forall|j: int| 0 <= j < i ==> registry.connectors@[j].id@ != id@,
            None => forall|j: int|
                0 <= j < registry.connectors.len() ==> registry.connectors@[j].id@ != id@,
        },
{
    let mut i: usize = 0;
    while i < registry.connectors.len()
        invariant
            i <= registry.connectors.len(),
            forall|j: int| 0 <= j < i ==> registry.connectors@[j].id@ != id@,
        decreases registry.connectors.len() - i,
    {
        if same_text(registry.connectors[i].id.as_str(), id) {
            return Some(i);
        }
        i = i + 1;
    }
    None
}

/// The address of a file of the registry.
pub fn file_url(base_url: &str, file: &str) -> (r: String)
    ensures
        r@ == base_url@ + "/"@ + file@,
{
    let mut out = String::new();
    out.append(base_url);
    out.append("/");
    out.append(file);
    assert(out@ =~= base_url@ + "/"@ + file@);
    out
}

/// The name under which a file of the registry is stored: what follows the
/// last `/` of its path.
pub fn file_name(path: &str) -> (r: String)
    ensures
        r@ == path@.subrange(after_last(path@, '/', path@.len() as int), path@.len() as int),
{
    let v = chars_of(path);
    let n: usize = v.len();
    let start: usize = after_last_in(&v, '/');
    piece(path, start, n)
}

} // verus!
