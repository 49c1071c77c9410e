//! The resource catalog and its resolution.
//!
//! The catalog payload is a record with an optional sequence of
//! descriptors, each carrying an optional display name and an optional
//! launch path.  Resolution picks the first descriptor whose name equals
//! the requested application name exactly — no normalization, no case
//! folding — and fails when the sequence itself is absent (a malformed
//! payload, distinct from an empty sequence), when no descriptor
//! matches, or when the first match carries no launch path.

use vstd::prelude::*;
use vstd::string::StrSliceExecFns;

use crate::json::{
    json_as_array, json_as_string, json_elements_of, json_get, json_member_of, json_parse_of,
    json_text_of, parse_json,
};
use crate::text::str_eq;

verus! {

/// One catalog descriptor.
#[derive(Debug, Clone, PartialEq, Eq)]
pub struct Resource {
    /// Relative address of the descriptor's launch artifact.
    pub launchurl: Option<String>,
    /// Display name of the hosted application.
    pub name: Option<String>,
}

/// Ghost image of a descriptor.
pub struct ResourceModel {
    pub launchurl: Option<Seq<char>>,
    pub name: Option<Seq<char>>,
}

impl View for Resource {
    type V = ResourceModel;

    open spec fn view(&self) -> ResourceModel {
        ResourceModel {
            launchurl: match self.launchurl {
                Some(u) => Some(u@),
                None => None,
            },
            name: match self.name {
                Some(n) => Some(n@),
                None => None,
            },
        }
    }
}

/// The catalog payload: an optional sequence of descriptors.  `None`
/// means the payload lacked the sequence altogether.
#[derive(Debug, Clone, PartialEq, Eq)]
pub struct ResourceList {
    pub resources: Option<Vec<Resource>>,
}

impl View for ResourceList {
    type V = Option<Seq<ResourceModel>>;

    open spec fn view(&self) -> Option<Seq<ResourceModel>> {
        match self.resources {
            Some(rs) => Some(rs@.map_values(|r: Resource| r@)),
            None => None,
        }
    }
}

/// Why resolution failed.
#[derive(Debug, Clone, Copy, PartialEq, Eq, Structural)]
pub enum CatalogError {
    /// The payload carried no descriptor sequence at all.
    ResourcesAbsent,
    /// No descriptor's name equals the requested name.
    NoMatch,
    /// The first matching descriptor has no launch path.
    NoLaunchPath,
}

/// What resolution returns on a descriptor sequence: the launch path of
/// the first descriptor named exactly `name`, if it has one.
pub open spec fn resolve_resources_spec(rs: Seq<ResourceModel>, name: Seq<char>) -> Result<
    Seq<char>,
    CatalogError,
>
    decreases rs.len(),
{
    if rs.len() == 0 {
        Err(CatalogError::NoMatch)
    } else if rs[0].name == Some(name) {
        match rs[0].launchurl {
            Some(u) => Ok(u),
            None => Err(CatalogError::NoLaunchPath),
        }
    } else {
        resolve_resources_spec(rs.drop_first(), name)
    }
}

/// What resolution returns on a whole catalog.
pub open spec fn resolve_catalog_spec(list: Option<Seq<ResourceModel>>, name: Seq<char>) -> Result<
    Seq<char>,
    CatalogError,
> {
    match list {
        None => Err(CatalogError::ResourcesAbsent),
        Some(rs) => resolve_resources_spec(rs, name),
    }
}

/// Select the launch path for the requested application name, scanning
/// the descriptors in order and matching names exactly.
pub fn resolve_resource(list: &ResourceList, application_name: &str) -> (r: Result<
    String,
    CatalogError,
>)
    ensures
        match r {
            Ok(u) => resolve_catalog_spec(list@, application_name@) == Ok::<_, CatalogError>(u@),
            Err(e) => resolve_catalog_spec(list@, application_name@) == Err::<Seq<char>, _>(e),
        },
{
    let rs = match &list.resources {
        Some(rs) => rs,
        None => {
            return Err(CatalogError::ResourcesAbsent);
        },
    };
    let ghost full = list@->0;
    proof {
        assert(full.skip(0) =~= full);
    }
    let n = rs.len();
    let mut i: usize = 0;
    while i < n
        invariant
            n == rs@.len(),
            i <= n,
            list@ == Some(full),
            forall|k: int| 0 <= k < n ==> full[k] == #[trigger] rs@[k]@,
            full.len() == n,
            resolve_resources_spec(full, application_name@) == resolve_resources_spec(
                full.skip(i as int),
                application_name@,
            ),
        decreases n - i,
    {
        let r = &rs[i];
        let name_matches = match &r.name {
            Some(nm) => str_eq(nm.as_str(), application_name),
            None => false,
        };
        proof {
            assert(full.skip(i as int)[0] == rs@[i as int]@);
        }
        if name_matches {
            proof {
                assert(list@ == Some(full));
                assert(full.skip(i as int)[0].name == Some(application_name@));
            }
            match &r.launchurl {
                Some(u) => {
                    proof {
                        assert(resolve_resources_spec(full.skip(i as int), application_name@)
                            == Ok::<_, CatalogError>(u@));
                    }
                    return Ok(u.clone());
                },
                None => {
                    return Err(CatalogError::NoLaunchPath);
                },
            }
        }
        proof {
            assert(full.skip(i as int).drop_first() =~= full.skip(i + 1));
        }
        i += 1;
    }
    proof {
        assert(full.skip(i as int) =~= Seq::<ResourceModel>::empty());
    }
    Err(CatalogError::NoMatch)
}

/// The text of a member of a JSON value, when the member is present and
/// a string.
pub open spec fn member_text_of(v: serde_json::Value, key: Seq<char>) -> Option<Seq<char>> {
    match json_member_of(v, key) {
        None => None,
        Some(f) => json_text_of(f),
    }
}

/// The descriptor a catalog array element decodes to.
pub open spec fn resource_of(v: serde_json::Value) -> ResourceModel {
    ResourceModel {
        launchurl: member_text_of(v, "launchurl"@),
        name: member_text_of(v, "name"@),
    }
}

/// The descriptors of a catalog array.
pub open spec fn resources_of(items: Seq<serde_json::Value>) -> Seq<ResourceModel> {
    items.map_values(|x: serde_json::Value| resource_of(x))
}

/// What catalog decoding returns for a payload text: `None` when the
/// text is not JSON at all; otherwise the optional descriptor sequence,
/// absent when the document carries no `resources` array.
pub open spec fn catalog_of(s: Seq<char>) -> Option<Option<Seq<ResourceModel>>> {
    match json_parse_of(s) {
        None => None,
        Some(v) => Some(
            match json_member_of(v, "resources"@) {
                None => None,
                Some(r) => match json_elements_of(r) {
                    None => None,
                    Some(items) => Some(resources_of(items)),
                },
            },
        ),
    }
}

/// Decode the catalog payload: exactly [`catalog_of`] of the text.  The
/// JSON reading itself is delegated (see the `json` module); every
/// caller decision is taken by [`resolve_resource`] on the plain values
/// returned here.
pub fn decode_catalog(text: &str) -> (r: Option<ResourceList>)
    ensures
        match r {
            Some(list) => catalog_of(text@) == Some(list@),
            None => catalog_of(text@) is None,
        },
{
    let v = match parse_json(text) {
        Some(v) => v,
        None => {
            return None;
        },
    };
    let arr = match json_get(&v, "resources") {
        Some(rv) => json_as_array(rv),
        None => None,
    };
    match arr {
        None => Some(ResourceList { resources: None }),
        Some(items) => {
            let mut out: Vec<Resource> = Vec::new();
            let n = items.len();
            let mut i: usize = 0;
            while i < n
                invariant
                    n == items@.len(),
                    i <= n,
                    out@.len() == i,
                    forall|k: int| 0 <= k < i ==> #[trigger] out@[k]@ == resource_of(items@[k]),
                decreases n - i,
            {
                let item = &items[i];
                let launchurl = match json_get(item, "launchurl") {
                    Some(u) => json_as_string(u),
                    None => None,
                };
                let name = match json_get(item, "name") {
                    Some(m) => json_as_string(m),
                    None => None,
                };
                let res = Resource { launchurl, name };
                proof {
                    assert(res@ == resource_of(items@[i as int]));
                }
                out.push(res);
                i += 1;
            }
            let list = ResourceList { resources: Some(out) };
            proof {
                assert(out@.map_values(|r: Resource| r@) =~= resources_of(items@));
            }
            Some(list)
        },
    }
}

} // verus!
