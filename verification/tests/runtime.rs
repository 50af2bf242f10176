use coi_actix_web::ContainerKey;
use coi_actix_web::ExtractError;
use coi_actix_web::Injected;
use coi_actix_web::extract_injected;
use coi_actix_web::ast::Path;
use coi_actix_web::ast::PathArguments;
use coi_actix_web::ast::PathSegment;
use coi_actix_web::symbols::crate_symbol;

struct ServiceKey;

impl ContainerKey<String> for ServiceKey {
    fn key() -> &'static str {
        "service"
    }
}

#[test]
fn container_key_names_the_entry() {
    assert_eq!(<ServiceKey as ContainerKey<String>>::key(), "service");
}

#[test]
fn injected_new_wraps_the_value() {
    let inj: Injected<String, ServiceKey> = Injected::new("hello".to_string());
    assert_eq!(inj.0, "hello");
}

#[test]
fn extract_with_resolved_value_succeeds() {
    let lookup: Option<Result<String, &'static str>> = Some(Ok("svc".to_string()));
    let r = extract_injected::<String, ServiceKey, &'static str>(lookup);
    match r {
        Ok(inj) => assert_eq!(inj.0, "svc"),
        Err(_) => panic!("expected a resolved value"),
    }
}

#[test]
fn extract_without_container_fails() {
    let r = extract_injected::<String, ServiceKey, &'static str>(None);
    match r {
        Ok(_) => panic!("expected an error"),
        Err(e) => {
            assert!(matches!(e, ExtractError::ContainerNotRegistered));
            assert_eq!(e.message(), "Container not registered");
        }
    }
}

#[test]
fn extract_with_failed_resolution_carries_the_error() {
    let lookup: Option<Result<String, &'static str>> = Some(Err("key not found"));
    let r = extract_injected::<String, ServiceKey, &'static str>(lookup);
    match r {
        Ok(_) => panic!("expected an error"),
        Err(ExtractError::ResolutionFailed(e)) => assert_eq!(e, "key not found"),
        Err(ExtractError::ContainerNotRegistered) => panic!("wrong error"),
    }
}

#[test]
fn crate_symbol_spells_crate() {
    let sym = crate_symbol();
    assert_eq!(sym.as_str(), "crate");
    assert!(sym.matches_ident("crate"));
    assert!(!sym.matches_ident("crates"));
    assert!(!sym.matches_ident("crat"));
}

#[test]
fn crate_symbol_matches_paths() {
    let sym = crate_symbol();
    let plain = Path {
        leading_colon: false,
        segments: vec![PathSegment {
            ident: "crate".to_string(),
            arguments: PathArguments::Bare,
        }],
    };
    assert!(sym.matches_path(&plain));
    let rooted = Path { leading_colon: true, segments: plain.segments };
    assert!(!sym.matches_path(&rooted));
    let two = Path {
        leading_colon: false,
        segments: vec![
            PathSegment { ident: "crate".to_string(), arguments: PathArguments::Bare },
            PathSegment { ident: "inner".to_string(), arguments: PathArguments::Bare },
        ],
    };
    assert!(!sym.matches_path(&two));
}
