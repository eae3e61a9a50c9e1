use hare::control_plane::convert::FromDataPlane;
use hare::control_plane::model::{
    AddAliasesForShortcutRequest, Alias, CreateShortcutRequest, CreateShortcutRequestShortcut, ListShortcutsRequest,
    Reference, Shortcut, ShortcutReference, ShortcutReferenceAccessExt,
};
use hare::control_plane::request_id::{RequestId, REQUEST_ID_HEADER_NAME};
use hare::control_plane::service::{
    add_aliases_response, check_add_aliases_request, check_create_shortcut_request, check_list_shortcuts_request,
    create_shortcut_response, get_default_fallback_shortcut_response, get_shortcut_response, list_shortcuts_response,
    update_shortcut_response, ControlPlaneAliasList, HareControlPlaneService,
};
use hare::data_plane::error::{DataPlaneError, RpcCode, RpcStatus};
use hare::data_plane::model::{CommittedAlias, CommittedDestination, CommittedShortcut, CommittedShortcutList};
use hare::data_plane::pagination::{PaginationContinuation, PaginationRequest};

fn new_alias(name: &str) -> Alias {
    Alias { uid: None, name: name.to_string() }
}

fn committed_shortcut() -> CommittedShortcut {
    CommittedShortcut {
        destination: CommittedDestination {
            uid: "uid-1".to_string(),
            url: "https://duckduckgo.com/?q={}".to_string(),
            num_params: 1,
            is_fallback: true,
            is_default_fallback: false,
            description: "DuckDuckGo search".to_string(),
        },
        aliases: vec![CommittedAlias {
            destination_uid: Some("uid-1".to_string()),
            uid: Some("alias-1".to_string()),
            name: "ddg".to_string(),
        }],
    }
}

fn expected_shortcut() -> Shortcut {
    Shortcut {
        uid: "uid-1".to_string(),
        url: "https://duckduckgo.com/?q={}".to_string(),
        num_params: 1,
        is_fallback: true,
        is_default_fallback: false,
        description: "DuckDuckGo search".to_string(),
        aliases: vec![Alias { uid: Some("alias-1".to_string()), name: "ddg".to_string() }],
    }
}

#[test]
fn test_get_ref_and_ok_or_else() {
    let by_uid = ShortcutReference { reference: Some(Reference::Uid("uid-1".to_string())) };
    let by_alias = ShortcutReference { reference: Some(Reference::Alias("ddg".to_string())) };
    let empty = ShortcutReference { reference: None };
    assert_eq!(by_uid.get_ref(), Some("uid-1"));
    assert_eq!(by_alias.get_ref(), Some("ddg"));
    assert_eq!(empty.get_ref(), None);
    assert_eq!(by_alias.ok_or_else(|| "missing"), Ok(&Reference::Alias("ddg".to_string())));
    assert_eq!(empty.ok_or_else(|| "missing"), Err("missing"));
}

#[test]
fn test_get_shortcut_ref_value() {
    let reference = ShortcutReference { reference: Some(Reference::Uid("uid-1".to_string())) };
    assert_eq!(
        HareControlPlaneService::<()>::get_shortcut_ref_value(Some(&reference)),
        Ok(&Reference::Uid("uid-1".to_string()))
    );
    assert_eq!(
        HareControlPlaneService::<()>::get_shortcut_ref_value(None),
        Err(DataPlaneError::InvalidArgument { message: "Must provide a shortcut reference".to_string() })
    );
    assert_eq!(
        HareControlPlaneService::<()>::get_shortcut_ref_value(Some(&ShortcutReference { reference: None })),
        Err(DataPlaneError::InvalidArgument { message: "Must provide either a shortcut UID or alias".to_string() })
    );
}

#[test]
fn test_service_keeps_its_client() {
    let service = HareControlPlaneService::new(42u32);
    assert_eq!(*service.data_plane_client(), 42);
}

#[test]
fn test_unique_alias_names_keep_first_occurrences() {
    let aliases = vec![new_alias("ddg"), new_alias("duckduckgo"), new_alias("ddg"), new_alias("d")];
    assert_eq!(ControlPlaneAliasList(&aliases).get_unique_alias_names(), vec!["ddg", "duckduckgo", "d"]);
    assert!(ControlPlaneAliasList(&vec![]).get_unique_alias_names().is_empty());
}

#[test]
fn test_add_aliases_when_no_aliases_then_invalid_argument() {
    let request = AddAliasesForShortcutRequest {
        shortcut_ref: Some(ShortcutReference { reference: Some(Reference::Uid("uid-1".to_string())) }),
        aliases: vec![],
    };
    assert_eq!(
        check_add_aliases_request(&request),
        Err(RpcStatus { code: RpcCode::InvalidArgument, message: "Must provide at least one alias to add".to_string() })
    );
}

#[test]
fn test_add_aliases_when_no_reference_then_invalid_argument() {
    let request = AddAliasesForShortcutRequest { shortcut_ref: None, aliases: vec![new_alias("ddg")] };
    assert_eq!(
        check_add_aliases_request(&request),
        Err(RpcStatus { code: RpcCode::InvalidArgument, message: "Must provide a shortcut reference".to_string() })
    );
}

#[test]
fn test_add_aliases_with_dupes_then_unique() {
    let request = AddAliasesForShortcutRequest {
        shortcut_ref: Some(ShortcutReference { reference: Some(Reference::Alias("d".to_string())) }),
        aliases: vec![new_alias("ddg"), new_alias("duckduckgo"), new_alias("ddg")],
    };
    let (reference, names) = check_add_aliases_request(&request).unwrap();
    assert_eq!(reference, &Reference::Alias("d".to_string()));
    assert_eq!(names, vec!["ddg", "duckduckgo"]);
}

#[test]
fn test_add_aliases_response() {
    let added = vec![CommittedAlias { destination_uid: Some("uid-1".to_string()), uid: None, name: "ddg".to_string() }];
    assert_eq!(add_aliases_response(Some(added)).aliases, vec![new_alias("ddg")]);
    assert!(add_aliases_response(None).aliases.is_empty());
}

#[test]
fn test_create_shortcut_when_missing_then_invalid_argument() {
    assert_eq!(
        check_create_shortcut_request(&CreateShortcutRequest { shortcut: None }),
        Err(RpcStatus { code: RpcCode::InvalidArgument, message: "Must provide shortcut to be created".to_string() })
    );
}

#[test]
fn test_create_shortcut_when_no_aliases_then_invalid_argument() {
    let request = CreateShortcutRequest {
        shortcut: Some(CreateShortcutRequestShortcut {
            url: "https://wikipedia.org".to_string(),
            is_fallback: None,
            description: "Wikipedia main page".to_string(),
            aliases: vec![],
        }),
    };
    assert_eq!(
        check_create_shortcut_request(&request),
        Err(RpcStatus { code: RpcCode::InvalidArgument, message: "Shortcuts must have at least one alias".to_string() })
    );
}

#[test]
fn test_create_shortcut_defaults_to_not_fallback() {
    let request = CreateShortcutRequest {
        shortcut: Some(CreateShortcutRequestShortcut {
            url: "https://wikipedia.org".to_string(),
            is_fallback: None,
            description: "Wikipedia main page".to_string(),
            aliases: vec![new_alias("w"), new_alias("wp"), new_alias("w")],
        }),
    };
    let new = check_create_shortcut_request(&request).unwrap();
    assert_eq!(new.url, "https://wikipedia.org");
    assert!(!new.is_fallback);
    assert_eq!(new.description, "Wikipedia main page");
    assert_eq!(new.aliases, vec!["w", "wp"]);
}

#[test]
fn test_convert_shortcut() {
    assert_eq!(Shortcut::convert(committed_shortcut()), expected_shortcut());
    assert_eq!(
        Alias::convert(CommittedAlias { destination_uid: None, uid: Some("a".to_string()), name: "n".to_string() }),
        Alias { uid: Some("a".to_string()), name: "n".to_string() }
    );
    let list = CommittedShortcutList { shortcuts: vec![committed_shortcut(), committed_shortcut()] };
    assert_eq!(Vec::<Shortcut>::convert(list), vec![expected_shortcut(), expected_shortcut()]);
}

#[test]
fn test_shortcut_responses() {
    assert_eq!(create_shortcut_response(committed_shortcut()).shortcut, Some(expected_shortcut()));
    assert_eq!(get_shortcut_response(committed_shortcut()).shortcut, Some(expected_shortcut()));
    assert_eq!(get_default_fallback_shortcut_response(committed_shortcut()).shortcut, Some(expected_shortcut()));
    assert_eq!(update_shortcut_response(Some(committed_shortcut())).shortcut, Some(expected_shortcut()));
    assert_eq!(update_shortcut_response(None).shortcut, None);
}

#[test]
fn test_list_shortcuts_request_and_response() {
    assert_eq!(
        check_list_shortcuts_request(&ListShortcutsRequest { pagination: None }),
        Err(RpcStatus { code: RpcCode::InvalidArgument, message: "Must provide pagination information".to_string() })
    );
    let pagination = PaginationRequest { continuation_token: None, page_size: Some(10) };
    let request = ListShortcutsRequest { pagination: Some(pagination.clone()) };
    assert_eq!(check_list_shortcuts_request(&request), Ok(&pagination));

    let listed = hare::data_plane::pagination::ListShortcutsResponse {
        shortcuts: CommittedShortcutList { shortcuts: vec![committed_shortcut()] },
        pagination: PaginationContinuation { next_continuation_token: Some("token".to_string()) },
    };
    let response = list_shortcuts_response(listed);
    assert_eq!(response.shortcuts, vec![expected_shortcut()]);
    assert_eq!(
        response.pagination_continuation,
        Some(PaginationContinuation { next_continuation_token: Some("token".to_string()) })
    );
}

#[test]
fn test_control_plane_request_id() {
    assert_eq!(REQUEST_ID_HEADER_NAME, "x-hare-request-id");
    let id = RequestId::default();
    assert_eq!(id.get_id().len(), 36);
    assert_eq!(id.get_id().chars().nth(14), Some('4'));
    assert_eq!(id.to_text(), id.get_id());
    assert_ne!(RequestId::default().get_id(), id.get_id());
}
