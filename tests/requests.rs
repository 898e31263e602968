use actions::cli::Format;
use actions::report::{duration_text, total_minutes, usage_row};
use actions::requests::{Method, Requests};
use actions::secrets::{check_key_bytes, decode_public_key, encode_secret, KeyError};

fn pairs(v: &[(&str, &str)]) -> Vec<(String, String)> {
    v.iter().map(|(a, b)| (a.to_string(), b.to_string())).collect()
}

#[test]
fn requests_carry_identity_and_token() {
    let r = Requests { token: "s3".into() };
    let req = r.secrets_request("o/r");
    assert_eq!(req.method, Method::Get);
    assert_eq!(req.url, "https://api.github.com/repos/o/r/actions/secrets");
    assert_eq!(req.query, pairs(&[("per_page", "100")]));
    assert_eq!(req.headers, pairs(&[("User-Agent", "actions"), ("Authorization", "bearer s3")]));
}

#[test]
fn endpoint_urls() {
    let r = Requests { token: "t".into() };
    let search = r.repos_request("acme");
    assert_eq!(search.url, "https://api.github.com/search/code");
    assert_eq!(search.query, pairs(&[("per_page", "100"), ("q", "org:acme path:.github/workflows")]));
    assert_eq!(r.workflows_request("o/r").url, "https://api.github.com/repos/o/r/actions/workflows");
    assert_eq!(r.artifacts_request("o/r", 1234).url, "https://api.github.com/repos/o/r/actions/runs/1234/artifacts");
    let del = r.delete_artifact_request("o/r", 0);
    assert_eq!(del.method, Method::Delete);
    assert_eq!(del.url, "https://api.github.com/repos/o/r/actions/artifacts/0");
    assert_eq!(r.public_key_request("o/r").url, "https://api.github.com/repos/o/r/actions/secrets/public-key");
    assert!(r.public_key_request("o/r").query.is_empty());
    let ds = r.delete_secret_request("o/r", "TOKEN");
    assert_eq!(ds.method, Method::Delete);
    assert_eq!(ds.url, "https://api.github.com/repos/o/r/actions/secrets/TOKEN");
}

#[test]
fn runs_request_encodes_workflow() {
    let r = Requests { token: "t".into() };
    let req = r.runs_request("o/r", "ci build.yml");
    assert_eq!(req.url, "https://api.github.com/repos/o/r/actions/workflows/ci+build.yml/runs");
    assert_eq!(req.query, pairs(&[("per_page", "100"), ("status", "completed")]));
    assert_eq!(r.runs_request("o/r", "42").url, "https://api.github.com/repos/o/r/actions/workflows/42/runs");
}

#[test]
fn format_names() {
    assert_eq!(Format::parse("csv"), Ok(Format::Csv));
    assert_eq!(Format::parse("tab"), Ok(Format::Tab));
    assert_eq!(
        Format::parse("xml"),
        Err("xml is not a supported format. try 'csv' or 'tab' instead".to_string())
    );
    assert_eq!("csv".parse::<Format>(), Ok(Format::Csv));
    assert_eq!(Format::default(), Format::Tab);
}

#[test]
fn public_key_must_decode_to_one_key() {
    let key = encode_secret(&vec![7u8; 32]);
    assert_eq!(key, "BwcHBwcHBwcHBwcHBwcHBwcHBwcHBwcHBwcHBwcHBwc=");
    assert_eq!(decode_public_key(&key), Ok(vec![7u8; 32]));
    assert_eq!(decode_public_key("AAAA"), Err(KeyError::WrongLength));
    assert_eq!(decode_public_key("not base64!"), Err(KeyError::NotBase64));
    assert_eq!(check_key_bytes(None), Err(KeyError::NotBase64));
    assert_eq!(check_key_bytes(Some(vec![1, 2])), Err(KeyError::WrongLength));
}

#[test]
fn report_rows() {
    assert_eq!(duration_text(3725), "1h 2m 5s");
    assert_eq!(duration_text(0), "0s");
    assert_eq!(usage_row("build", 90), "build\t1m 30s");
    assert_eq!(total_minutes(3725), 62);
}

#[test]
fn upsert_secret_is_a_put() {
    let r = Requests { token: "t".into() };
    let req = r.upsert_secret_request("o/r", "TOKEN");
    assert_eq!(req.method, Method::Put);
    assert_eq!(req.url, "https://api.github.com/repos/o/r/actions/secrets/TOKEN");
    assert!(req.query.is_empty());
}

#[test]
fn ids_are_written_in_decimal() {
    let r = Requests { token: "t".into() };
    assert_eq!(r.artifacts_request("o/r", 9).url, "https://api.github.com/repos/o/r/actions/runs/9/artifacts");
    assert_eq!(r.artifacts_request("o/r", 10).url, "https://api.github.com/repos/o/r/actions/runs/10/artifacts");
    assert_eq!(
        r.delete_artifact_request("o/r", usize::MAX).url,
        format!("https://api.github.com/repos/o/r/actions/artifacts/{}", usize::MAX)
    );
}
