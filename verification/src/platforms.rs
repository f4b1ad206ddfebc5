//! The connectors that are installed: what their metadata files say, and
//! which of two connectors of the same identifier is shown.

use crate::json::{
    find_member, json_of, json_text, member, members_view, object_members, opt_str, opt_text,
    optional_text_member, optional_text_of, parse_object, text_member, text_of, JsonItem,
    JsonItemView, JsonMember, JsonMemberView,
};
use crate::text::{owned, same_text};
use vstd::prelude::*;
use vstd::string::StringExecFns;

verus! {

/// What a connector's metadata file says.
#[derive(Debug, Clone, PartialEq, Eq)]
pub struct ConnectorMetadata {
    pub id: Option<String>,
    pub name: String,
    pub company: Option<String>,
    pub description: String,
    pub connect_url: String,
    pub connect_selector: String,
    pub export_frequency: Option<String>,
    /// As JSON text.
    pub vectorize_config: Option<String>,
    /// `vanilla`, which is the default, or `network-capture`.
    pub runtime: Option<String>,
}

pub ghost struct ConnectorMetadataView {
    pub id: Option<Seq<char>>,
    pub name: Seq<char>,
    pub company: Option<Seq<char>>,
    pub description: Seq<char>,
    pub connect_url: Seq<char>,
    pub connect_selector: Seq<char>,
    pub export_frequency: Option<Seq<char>>,
    pub vectorize_config: Option<Seq<char>>,
    pub runtime: Option<Seq<char>>,
}

impl View for ConnectorMetadata {
    type V = ConnectorMetadataView;

    open spec fn view(&self) -> ConnectorMetadataView {
        ConnectorMetadataView {
            id: opt_text(self.id),
            name: self.name@,
            company: opt_text(self.company),
            description: self.description@,
            connect_url: self.connect_url@,
            connect_selector: self.connect_selector@,
            export_frequency: opt_text(self.export_frequency),
            vectorize_config: opt_text(self.vectorize_config),
            runtime: opt_text(self.runtime),
        }
    }
}

/// A connector as the user interface lists it.
#[derive(Debug, Clone, PartialEq, Eq)]
pub struct Platform {
    pub id: String,
    pub company: String,
    pub name: String,
    pub filename: String,
    pub description: String,
    pub is_updated: bool,
    pub logo_url: String,
    pub needs_connection: bool,
    pub connect_url: Option<String>,
    pub connect_selector: Option<String>,
    pub export_frequency: Option<String>,
    /// As JSON text.
    pub vectorize_config: Option<String>,
    pub runtime: Option<String>,
}

pub ghost struct PlatformView {
    pub id: Seq<char>,
    pub company: Seq<char>,
    pub name: Seq<char>,
    pub filename: Seq<char>,
    pub description: Seq<char>,
    pub is_updated: bool,
    pub logo_url: Seq<char>,
    pub needs_connection: bool,
    pub connect_url: Option<Seq<char>>,
    pub connect_selector: Option<Seq<char>>,
    pub export_frequency: Option<Seq<char>>,
    pub vectorize_config: Option<Seq<char>>,
    pub runtime: Option<Seq<char>>,
}

impl View for Platform {
    type V = PlatformView;

    open spec fn view(&self) -> PlatformView {
        PlatformView {
            id: self.id@,
            company: self.company@,
            name: self.name@,
            filename: self.filename@,
            description: self.description@,
            is_updated: self.is_updated,
            logo_url: self.logo_url@,
            needs_connection: self.needs_connection,
            connect_url: opt_text(self.connect_url),
            connect_selector: opt_text(self.connect_selector),
            export_frequency: opt_text(self.export_frequency),
            vectorize_config: opt_text(self.vectorize_config),
            runtime: opt_text(self.runtime),
        }
    }
}

/// An optional member of any kind, as JSON text: absent or `null` is none.
pub open spec fn optional_json_of(item: Option<JsonItemView>) -> Option<Seq<char>> {
    match item {
        None => None,
        Some(JsonItemView::Null) => None,
        Some(_) => Some(json_of(item)),
    }
}

fn optional_json_member(members: &Vec<JsonMember>, key: &str) -> (r: Option<String>)
    ensures
        opt_text(r) == optional_json_of(member(members_view(members@), key@)),
{
    match find_member(members, key) {
        None => None,
        Some(JsonItem::Null) => None,
        Some(item) => Some(json_text(Some(item))),
    }
}

/// The metadata that an object's members denote: the name, the
/// description, the address and the selector must be strings; what else
/// there is, is optional.
pub open spec fn metadata_of(members: Seq<JsonMemberView>) -> Option<ConnectorMetadataView> {
    match (
        optional_text_of(member(members, "id"@)),
        text_of(member(members, "name"@)),
        optional_text_of(member(members, "company"@)),
        text_of(member(members, "description"@)),
        text_of(member(members, "connectURL"@)),
        text_of(member(members, "connectSelector"@)),
        optional_text_of(member(members, "exportFrequency"@)),
        optional_text_of(member(members, "runtime"@)),
    ) {
        (
            Some(id),
            Some(name),
            Some(company),
            Some(description),
            Some(connect_url),
            Some(connect_selector),
            Some(export_frequency),
            Some(runtime),
        ) => Some(
            ConnectorMetadataView {
                id,
                name,
                company,
                description,
                connect_url,
                connect_selector,
                export_frequency,
                vectorize_config: optional_json_of(member(members, "vectorize_config"@)),
                runtime,
            },
        ),
        _ => None,
    }
}

pub open spec fn opt_metadata(m: Option<ConnectorMetadata>) -> Option<ConnectorMetadataView> {
    match m {
        Some(x) => Some(x@),
        None => None,
    }
}

/// Reads metadata from the members of its object.
pub fn decode_metadata(members: &Vec<JsonMember>) -> (r: Option<ConnectorMetadata>)
    ensures
        opt_metadata(r) == metadata_of(members_view(members@)),
{
    match (
        optional_text_member(members, "id"),
        text_member(members, "name"),
        optional_text_member(members, "company"),
        text_member(members, "description"),
        text_member(members, "connectURL"),
        text_member(members, "connectSelector"),
        optional_text_member(members, "exportFrequency"),
        optional_text_member(members, "runtime"),
    ) {
        (
            Some(id),
            Some(name),
            Some(company),
            Some(description),
            Some(connect_url),
            Some(connect_selector),
            Some(export_frequency),
            Some(runtime),
        ) => Some(
            ConnectorMetadata {
                id,
                name,
                company,
                description,
                connect_url,
                connect_selector,
                export_frequency,
                vectorize_config: optional_json_member(members, "vectorize_config"),
                runtime,
            },
        ),
        _ => None,
    }
}

/// The metadata that a file holds; none where its text is no metadata.
pub fn parse_metadata(text: &str) -> (r: Option<ConnectorMetadata>)
    ensures
        opt_metadata(r) == match object_members(text@) {
            Some(members) => metadata_of(members),
            None => None,
        },
{
    match parse_object(text) {
        Some(members) => decode_metadata(&members),
        None => None,
    }
}

/// Whether a JSON file of a connectors directory is the metadata of a
/// connector: it is not called `connector`, and does not lie in `schemas`
/// or `types`. `stem` is the file's name without its extension, `parent`
/// the name of its directory.
pub fn is_connector_metadata(stem: &str, parent: &str) -> (r: bool)
    ensures
        r == (stem@ != "connector"@ && parent@ != "schemas"@ && parent@ != "types"@),
{
    !same_text(stem, "connector") && !same_text(parent, "schemas") && !same_text(parent, "types")
}

/// The connector that metadata describes. Where the metadata names no
/// identifier, it is the file's stem and `-001`; where it names no company,
/// it is the name of the file's directory, or `Unknown` without one.
pub open spec fn platform_of(
    metadata: ConnectorMetadataView,
    stem: Seq<char>,
    parent: Option<Seq<char>>,
) -> PlatformView {
    PlatformView {
        id: match metadata.id {
            Some(id) => id,
            None => stem + "-001"@,
        },
        company: match metadata.company {
            Some(c) => c,
            None => match parent {
                Some(p) => p,
                None => "Unknown"@,
            },
        },
        name: metadata.name,
        filename: stem,
        description: metadata.description,
        is_updated: false,
        logo_url: stem,
        needs_connection: true,
        connect_url: Some(metadata.connect_url),
        connect_selector: Some(metadata.connect_selector),
        export_frequency: metadata.export_frequency,
        vectorize_config: metadata.vectorize_config,
        runtime: metadata.runtime,
    }
}

pub fn platform_from_metadata(metadata: ConnectorMetadata, stem: &str, parent: Option<&str>) -> (r:
    Platform)
    ensures
        r@ == platform_of(
            metadata@,
            stem@,
            opt_str(parent),
        ),
{
    let id = match metadata.id {
        Some(id) => id,
        None => {
            let mut id = String::new();
            id.append(stem);
            id.append("-001");
            assert(id@ =~= stem@ + "-001"@);
            id
        },
    };
    let company = match metadata.company {
        Some(c) => c,
        None => match parent {
            Some(p) => owned(p),
            None => owned("Unknown"),
        },
    };
    Platform {
        id,
        company,
        name: metadata.name,
        filename: owned(stem),
        description: metadata.description,
        is_updated: false,
        logo_url: owned(stem),
        needs_connection: true,
        connect_url: Some(metadata.connect_url),
        connect_selector: Some(metadata.connect_selector),
        export_frequency: metadata.export_frequency,
        vectorize_config: metadata.vectorize_config,
        runtime: metadata.runtime,
    }
}

/// A list without the connectors of the identifier `id`.
pub open spec fn without_id(list: Seq<Platform>, id: Seq<char>) -> Seq<Platform>
    decreases list.len(),
{
    if list.len() == 0 {
        Seq::<Platform>::empty()
    } else if list.last().id@ == id {
        without_id(list.drop_last(), id)
    } else {
        without_id(list.drop_last(), id).push(list.last())
    }
}

/// A list after the first `k` of the connectors of `second` were added to
/// it, each taking the place of those of its identifier.
pub open spec fn overridden(first: Seq<Platform>, second: Seq<Platform>, k: int) -> Seq<Platform>
    decreases k,
{
    if k <= 0 || k > second.len() {
        first
    } else {
        without_id(overridden(first, second, k - 1), second[k - 1].id@).push(second[k - 1])
    }
}

fn remove_id(list: Vec<Platform>, id: &str) -> (r: Vec<Platform>)
    ensures
        r@ == without_id(list@, id@),
{
    let ghost all = list@;
    let mut out: Vec<Platform> = Vec::new();
    let mut i: usize = 0;
    let n: usize = list.len();
    assert(all.subrange(0, 0) =~= Seq::<Platform>::empty());
    for p in it: list
        invariant
            i == it.index(),
            n == all.len(),
            it.seq() == all,
            out@ == without_id(all.subrange(0, i as int), id@),
    {
        proof {
            let next = all.subrange(0, i + 1);
            assert(next.drop_last() =~= all.subrange(0, i as int));
            assert(next.last() == p);
        }
        if !same_text(p.id.as_str(), id) {
            out.push(p);
        }
        i = i + 1;
    }
    assert(all.subrange(0, all.len() as int) =~= all);
    out
}

/// The connectors to list: the bundled ones, and the user's, each of which
/// takes the place of those of its identifier.
pub fn merge_platforms(bundled: Vec<Platform>, user: Vec<Platform>) -> (r: Vec<Platform>)
    ensures
        r@ == overridden(bundled@, user@, user@.len() as int),
{
    let ghost first = bundled@;
    let ghost second = user@;
    let mut out = bundled;
    let mut k: usize = 0;
    let n: usize = user.len();
    for p in it: user
        invariant
            k == it.index(),
            n == second.len(),
            it.seq() == second,
            out@ == overridden(first, second, k as int),
    {
        out = remove_id(out, p.id.as_str());
        out.push(p);
        k = k + 1;
    }
    out
}

} // verus!
