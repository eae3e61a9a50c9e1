//! The control plane service: what it checks of each request, what it hands the data
//! plane, and what it answers.
use vstd::prelude::*;

use crate::control_plane::convert::{aliases_of, convert_aliases, shortcut_of, shortcuts_of, FromDataPlane};
use crate::control_plane::model::{
    AddAliasesForShortcutRequest, AddAliasesForShortcutResponse, Alias, CreateShortcutRequest,
    CreateShortcutResponse, GetDefaultFallbackShortcutResponse, GetShortcutResponse,
    ListShortcutsRequest, ListShortcutsResponse, Reference, Shortcut, ShortcutReference,
    ShortcutReferenceAccessExt, UpdateShortcutResponse,
};
use crate::data_plane::error::{
    error_view, DataPlaneError, DataPlaneResult, ErrorKind, RpcCode, RpcStatus,
};
use crate::data_plane::model::{CommittedAlias, CommittedShortcut};
use crate::data_plane::pagination::PaginationRequest;

verus! {

/// The names of `aliases`, in order.
pub open spec fn alias_names(aliases: Seq<Alias>) -> Seq<Seq<char>> {
    aliases.map_values(|alias: Alias| alias.name@)
}

/// The names of `names` in the order of their first occurrence, each once.
pub open spec fn unique_names(names: Seq<Seq<char>>) -> Seq<Seq<char>>
    decreases names.len(),
{
    if names.len() == 0 {
        Seq::empty()
    } else {
        let earlier = unique_names(names.drop_last());
        if names.drop_last().contains(names.last()) {
            earlier
        } else {
            earlier.push(names.last())
        }
    }
}

/// The texts of a list of string slices.
pub open spec fn str_views(strs: Seq<&str>) -> Seq<Seq<char>> {
    strs.map_values(|s: &str| s@)
}

/// The aliases of a request.
pub struct ControlPlaneAliasList<'a>(pub &'a Vec<Alias>);

impl<'a> ControlPlaneAliasList<'a> {
    /// The alias names, each once, in the order in which they first occur.
    pub fn get_unique_alias_names(self) -> (names: Vec<&'a str>)
        ensures
            str_views(names@) == unique_names(alias_names(self.0@)),
    {
        let aliases = self.0;
        let mut names: Vec<&'a str> = Vec::new();
        let mut i: usize = 0;
        while i < aliases.len()
            invariant
                i <= aliases.len(),
                str_views(names@) == unique_names(alias_names(aliases@.take(i as int))),
            decreases aliases.len() - i,
        {
            let mut seen = false;
            let mut j: usize = 0;
            while j < i
                invariant
                    j <= i < aliases.len(),
                    seen <==> exists|k: int| 0 <= k < j && aliases@[k].name@ == aliases@[i as int].name@,
                decreases i - j,
            {
                if aliases[j].name == aliases[i].name {
                    seen = true;
                }
                j = j + 1;
            }
            let ghost before = alias_names(aliases@.take(i as int));
            let ghost after = alias_names(aliases@.take(i + 1));
            proof {
                assert(after.drop_last() =~= before);
                assert(after.last() == aliases@[i as int].name@);
                if seen {
                    let k = choose|k: int| 0 <= k < i && aliases@[k].name@ == aliases@[i as int].name@;
                    assert(before[k] == after.last());
                } else {
                    assert forall|k: int| 0 <= k < before.len() implies before[k] != after.last() by {
                        assert(before[k] == aliases@[k].name@);
                    }
                }
            }
            if !seen {
                let ghost prev = names@;
                names.push(aliases[i].name.as_str());
                proof {
                    assert(str_views(names@) =~= str_views(prev).push(after.last()));
                }
            }
            i = i + 1;
        }
        proof {
            assert(aliases@.take(aliases@.len() as int) =~= aliases@);
        }
        names
    }
}

/// Alias names, each once: the unique names hold no name twice, and hold exactly the
/// names that occur.
pub proof fn lemma_unique_names(names: Seq<Seq<char>>)
    ensures
        unique_names(names).no_duplicates(),
        forall|name: Seq<char>| #[trigger] unique_names(names).contains(name) <==> names.contains(name),
    decreases names.len(),
{
    if names.len() > 0 {
        let rest = names.drop_last();
        lemma_unique_names(rest);
        assert forall|name: Seq<char>| #[trigger] names.contains(name) <==> rest.contains(name) || name
            == names.last() by {
            if names.contains(name) {
                let k = choose|k: int| 0 <= k < names.len() && names[k] == name;
                if k < names.len() - 1 {
                    assert(rest[k] == name);
                }
            }
            if rest.contains(name) {
                let k = choose|k: int| 0 <= k < rest.len() && rest[k] == name;
                assert(names[k] == name);
            }
            if name == names.last() {
                assert(names[names.len() - 1] == name);
            }
        }
        if !rest.contains(names.last()) {
            let earlier = unique_names(rest);
            assert forall|name: Seq<char>| #[trigger] earlier.push(names.last()).contains(name) <==> earlier.contains(
                name,
            ) || name == names.last() by {
                if earlier.push(names.last()).contains(name) {
                    let k = choose|k: int| 0 <= k < earlier.len() + 1 && earlier.push(names.last())[k] == name;
                    if k < earlier.len() {
                        assert(earlier[k] == name);
                    }
                }
                if earlier.contains(name) {
                    let k = choose|k: int| 0 <= k < earlier.len() && earlier[k] == name;
                    assert(earlier.push(names.last())[k] == name);
                }
                if name == names.last() {
                    assert(earlier.push(names.last())[earlier.len() as int] == name);
                }
            }
            let pushed = earlier.push(names.last());
            assert forall|i: int, j: int| 0 <= i < pushed.len() && 0 <= j < pushed.len() && i != j implies pushed[i]
                != pushed[j] by {
                if i == earlier.len() {
                    assert(earlier.contains(earlier[j]));
                } else if j == earlier.len() {
                    assert(earlier.contains(earlier[i]));
                }
            }
        }
    }
}

/// The reference a request names, or why it names none.
pub open spec fn shortcut_ref_value(shortcut_ref: Option<ShortcutReference>) -> Result<
    Reference,
    (ErrorKind, Seq<char>),
> {
    match shortcut_ref {
        None => Err((ErrorKind::InvalidArgument, "Must provide a shortcut reference"@)),
        Some(r) => match r.reference {
            None => Err((ErrorKind::InvalidArgument, "Must provide either a shortcut UID or alias"@)),
            Some(reference) => Ok(reference),
        },
    }
}

pub open spec fn deref_reference(shortcut_ref: Option<&ShortcutReference>) -> Option<ShortcutReference> {
    match shortcut_ref {
        Some(r) => Some(*r),
        None => None,
    }
}

/// The error of a shortcut reference that holds neither a UID nor an alias.
fn missing_reference_error() -> (e: DataPlaneError)
    ensures
        error_view(e) == (ErrorKind::InvalidArgument, "Must provide either a shortcut UID or alias"@),
{
    DataPlaneError::InvalidArgument { message: "Must provide either a shortcut UID or alias".to_owned() }
}

/// The control plane service, on top of a data plane client.
#[derive(Debug)]
pub struct HareControlPlaneService<D> {
    data_plane_client: D,
}

impl<D> HareControlPlaneService<D> {
    pub closed spec fn spec_data_plane_client(&self) -> D {
        self.data_plane_client
    }

    pub fn new(data_plane_client: D) -> (service: Self)
        ensures
            service.spec_data_plane_client() == data_plane_client,
    {
        HareControlPlaneService { data_plane_client }
    }

    /// The data plane client the service works with.
    pub fn data_plane_client(&self) -> (client: &D)
        ensures
            *client == self.spec_data_plane_client(),
    {
        &self.data_plane_client
    }

    /// Get the shortcut reference value from a shortcut reference.
    pub fn get_shortcut_ref_value<'a>(shortcut_ref: Option<&'a ShortcutReference>) -> (value: DataPlaneResult<
        &'a Reference,
    >)
        ensures
            match shortcut_ref_value(deref_reference(shortcut_ref)) {
                Ok(reference) => value matches Ok(r) && *r == reference,
                Err(view) => value matches Err(e) && error_view(e) == view,
            },
    {
        match shortcut_ref {
            None => Err(
                DataPlaneError::InvalidArgument { message: "Must provide a shortcut reference".to_owned() },
            ),
            Some(shortcut_ref) => shortcut_ref.ok_or_else(missing_reference_error),
        }
    }
}

/// What adding aliases hands the data plane: the reference of the shortcut, and the
/// alias names, each once.
pub fn check_add_aliases_request(request: &AddAliasesForShortcutRequest) -> (checked: Result<
    (&Reference, Vec<&str>),
    RpcStatus,
>)
    ensures
        request.aliases@.len() == 0 ==> (checked matches Err(status) && status.code == RpcCode::InvalidArgument
            && status.message@ == "Must provide at least one alias to add"@),
        request.aliases@.len() > 0 ==> match shortcut_ref_value(request.shortcut_ref) {
            Err((_, message)) => checked matches Err(status) && status.code == RpcCode::InvalidArgument
                && status.message@ == message,
            Ok(reference) => checked matches Ok((r, names)) && *r == reference && str_views(names@)
                == unique_names(alias_names(request.aliases@)),
        },
{
    if request.aliases.len() == 0 {
        return Err(RpcStatus::new(RpcCode::InvalidArgument, "Must provide at least one alias to add"));
    }
    let reference = match HareControlPlaneService::<()>::get_shortcut_ref_value(request.shortcut_ref.as_ref()) {
        Ok(reference) => reference,
        Err(e) => {
            return Err(RpcStatus::from_data_plane_error(e));
        },
    };
    let names = ControlPlaneAliasList(&request.aliases).get_unique_alias_names();
    Ok((reference, names))
}

/// What creating a shortcut hands the data plane.
#[derive(Debug, Clone, PartialEq, Eq)]
pub struct NewShortcut<'a> {
    pub url: &'a str,
    pub is_fallback: bool,
    pub description: &'a str,
    pub aliases: Vec<&'a str>,
}

/// What creating a shortcut hands the data plane: its URL, whether it is a fallback (not
/// unless the request says so), its description, and its alias names, each once.
pub fn check_create_shortcut_request(request: &CreateShortcutRequest) -> (checked: Result<NewShortcut<'_>, RpcStatus>)
    ensures
        request.shortcut is None ==> (checked matches Err(status) && status.code == RpcCode::InvalidArgument
            && status.message@ == "Must provide shortcut to be created"@),
        request.shortcut matches Some(s) ==> (s.aliases@.len() == 0 ==> (checked matches Err(status)
            && status.code == RpcCode::InvalidArgument && status.message@
            == "Shortcuts must have at least one alias"@)),
        request.shortcut matches Some(s) ==> (s.aliases@.len() > 0 ==> (checked matches Ok(new) && new.url@
            == s.url@ && new.is_fallback == (s.is_fallback == Some(true)) && new.description@ == s.description@
            && str_views(new.aliases@) == unique_names(alias_names(s.aliases@)))),
{
    let shortcut = match request.shortcut.as_ref() {
        Some(shortcut) => shortcut,
        None => {
            return Err(RpcStatus::new(RpcCode::InvalidArgument, "Must provide shortcut to be created"));
        },
    };
    if shortcut.aliases.len() == 0 {
        return Err(RpcStatus::new(RpcCode::InvalidArgument, "Shortcuts must have at least one alias"));
    }
    let aliases = ControlPlaneAliasList(&shortcut.aliases).get_unique_alias_names();
    let is_fallback = match shortcut.is_fallback {
        Some(flag) => flag,
        None => false,
    };
    Ok(NewShortcut { url: shortcut.url.as_str(), is_fallback, description: shortcut.description.as_str(), aliases })
}

/// The answer to adding aliases: the aliases the data plane added, if it says which.
pub fn add_aliases_response(added: Option<Vec<CommittedAlias>>) -> (response: AddAliasesForShortcutResponse)
    ensures
        match added {
            Some(aliases) => aliases_of(response.aliases@, aliases@),
            None => response.aliases@.len() == 0,
        },
{
    match added {
        Some(aliases) => AddAliasesForShortcutResponse { aliases: convert_aliases(&aliases) },
        None => AddAliasesForShortcutResponse { aliases: Vec::new() },
    }
}

/// The answer to creating a shortcut: the created shortcut.
pub fn create_shortcut_response(created: CommittedShortcut) -> (response: CreateShortcutResponse)
    ensures
        response.shortcut matches Some(s) && shortcut_of(s, created),
{
    CreateShortcutResponse { shortcut: Some(Shortcut::convert(created)) }
}

/// The answer to a request for the default fallback shortcut.
pub fn get_default_fallback_shortcut_response(found: CommittedShortcut) -> (response:
    GetDefaultFallbackShortcutResponse)
    ensures
        response.shortcut matches Some(s) && shortcut_of(s, found),
{
    GetDefaultFallbackShortcutResponse { shortcut: Some(Shortcut::convert(found)) }
}

/// The answer to a request for a shortcut.
pub fn get_shortcut_response(found: CommittedShortcut) -> (response: GetShortcutResponse)
    ensures
        response.shortcut matches Some(s) && shortcut_of(s, found),
{
    GetShortcutResponse { shortcut: Some(Shortcut::convert(found)) }
}

/// The pagination of a request to list shortcuts, which it must give.
pub fn check_list_shortcuts_request(request: &ListShortcutsRequest) -> (checked: Result<&PaginationRequest, RpcStatus>)
    ensures
        request.pagination is None ==> (checked matches Err(status) && status.code == RpcCode::InvalidArgument
            && status.message@ == "Must provide pagination information"@),
        request.pagination matches Some(p) ==> checked == Ok::<&PaginationRequest, RpcStatus>(&p),
{
    match request.pagination.as_ref() {
        Some(pagination) => Ok(pagination),
        None => Err(RpcStatus::new(RpcCode::InvalidArgument, "Must provide pagination information")),
    }
}

/// The answer to listing shortcuts: the page of shortcuts and how to continue.
pub fn list_shortcuts_response(listed: crate::data_plane::pagination::ListShortcutsResponse) -> (response:
    ListShortcutsResponse)
    ensures
        shortcuts_of(response.shortcuts@, listed.shortcuts.shortcuts@),
        response.pagination_continuation == Some(listed.pagination),
{
    ListShortcutsResponse {
        shortcuts: Vec::<Shortcut>::convert(listed.shortcuts),
        pagination_continuation: Some(listed.pagination),
    }
}

/// The answer to updating a shortcut: the updated shortcut, or none when the request gave
/// no new values.
pub fn update_shortcut_response(updated: Option<CommittedShortcut>) -> (response: UpdateShortcutResponse)
    ensures
        match updated {
            Some(c) => response.shortcut matches Some(s) && shortcut_of(s, c),
            None => response.shortcut is None,
        },
{
    match updated {
        Some(shortcut) => UpdateShortcutResponse { shortcut: Some(Shortcut::convert(shortcut)) },
        None => UpdateShortcutResponse { shortcut: None },
    }
}

} // verus!
