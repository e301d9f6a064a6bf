use invoice_backend::error::BackendError;
use invoice_backend::paths::{candidate_paths, get_bundled_ocaml_backend, marker_path, Probe};

const ABSENT: Probe = Probe { exists: false, has_marker: false };
const BARE: Probe = Probe { exists: true, has_marker: false };
const FOUND: Probe = Probe { exists: true, has_marker: true };

#[test]
fn candidates_cover_every_layout_in_order() {
    assert_eq!(
        candidate_paths("/app/bin"),
        vec![
            "/app/bin/../ocaml-backend".to_string(),
            "/app/bin/../../ocaml-backend".to_string(),
            "/app/bin/ocaml-backend".to_string(),
            "/app/bin/../Resources/_up_/ocaml-backend".to_string(),
            "/app/bin/../Resources/ocaml-backend".to_string(),
        ]
    );
}

#[test]
fn marker_is_the_source_tree() {
    assert_eq!(marker_path("/app/ocaml-backend"), "/app/ocaml-backend/src");
}

#[test]
fn resolver_takes_the_first_match() {
    let candidates = candidate_paths("/app/bin");
    let probes = vec![ABSENT, BARE, FOUND, ABSENT, FOUND];
    assert_eq!(
        get_bundled_ocaml_backend(candidates, &probes),
        Ok("/app/bin/ocaml-backend".to_string())
    );
}

#[test]
fn resolver_finds_each_layout() {
    for winner in 0..5 {
        let candidates = candidate_paths("/x");
        let expected = candidates[winner].clone();
        let probes: Vec<Probe> =
            (0..5).map(|i| if i == winner { FOUND } else { BARE }).collect();
        assert_eq!(get_bundled_ocaml_backend(candidates, &probes), Ok(expected));
    }
}

#[test]
fn resolver_needs_the_marker() {
    let candidates = candidate_paths("/app/bin");
    let probes = vec![BARE; 5];
    let tried = candidates.clone();
    assert_eq!(
        get_bundled_ocaml_backend(candidates, &probes),
        Err(BackendError::PathNotFound { tried })
    );
}

#[test]
fn resolver_ignores_a_marker_without_directory() {
    let probes = vec![Probe { exists: false, has_marker: true }];
    let candidates = vec!["/only".to_string()];
    assert!(get_bundled_ocaml_backend(candidates, &probes).is_err());
}

#[test]
fn resolver_failure_lists_every_candidate() {
    let candidates = candidate_paths("/app/bin");
    let probes = vec![ABSENT; 5];
    let error = get_bundled_ocaml_backend(candidates.clone(), &probes).unwrap_err();
    assert_eq!(error, BackendError::PathNotFound { tried: candidates.clone() });
    let message = error.message();
    for candidate in &candidates {
        assert!(message.contains(candidate.as_str()));
    }
}

#[test]
fn resolver_counts_unprobed_candidates_as_absent() {
    let candidates = candidate_paths("/app/bin");
    assert!(get_bundled_ocaml_backend(candidates.clone(), &Vec::new()).is_err());
    let probes = vec![ABSENT, FOUND];
    assert_eq!(
        get_bundled_ocaml_backend(candidates.clone(), &probes),
        Ok(candidates[1].clone())
    );
}

#[test]
fn resolver_ignores_probes_beyond_the_candidates() {
    let candidates = vec!["/one".to_string()];
    let probes = vec![ABSENT, FOUND];
    assert_eq!(
        get_bundled_ocaml_backend(candidates.clone(), &probes),
        Err(BackendError::PathNotFound { tried: candidates })
    );
}
