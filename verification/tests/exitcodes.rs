use anyhow::Result;
use assert_fs::prelude::PathChild;
use assert_fs::TempDir;

use chksum_cli::{aggregate_exitcode, exitcode, Digest, IoFailure, EXITCODE_IOERR, EXITCODE_OK};

fn ok_outcome(hex: &str) -> std::result::Result<Digest, IoFailure> {
    Ok(Digest::from_hex(String::from(hex)).unwrap())
}

fn err_outcome(message: &str) -> std::result::Result<Digest, IoFailure> {
    Err(IoFailure::new(String::from(message)))
}

#[test]
fn exitcode_ok() -> Result<()> {
    let tmpdir = TempDir::new()?;

    let result = chksum::chksum::<chksum::MD5>(tmpdir.path());
    let outcome = match result {
        Ok(digest) => ok_outcome(&digest.to_hex_lowercase()),
        Err(error) => err_outcome(&error.to_string()),
    };
    assert_eq!(exitcode(&outcome), EXITCODE_OK);

    Ok(())
}

#[test]
fn exitcode_error() -> Result<()> {
    let tmpdir = TempDir::new()?;
    let child = tmpdir.child("child");

    let result = chksum::chksum::<chksum::MD5>(child.path());
    let outcome = match result {
        Ok(digest) => ok_outcome(&digest.to_hex_lowercase()),
        Err(error) => err_outcome(&error.to_string()),
    };
    assert_eq!(exitcode(&outcome), EXITCODE_IOERR);

    Ok(())
}

#[test]
fn exitcode_values() {
    assert_eq!(exitcode(&ok_outcome("00ff")), 0);
    assert_eq!(exitcode(&err_outcome("no such file or directory")), 74);
}

#[test]
fn aggregate_all_ok_is_ok() {
    let outcomes = vec![ok_outcome("00"), ok_outcome("ff"), ok_outcome("abc123")];
    assert_eq!(aggregate_exitcode(&outcomes), EXITCODE_OK);
}

#[test]
fn aggregate_single_failure_is_ioerr() {
    let outcomes = vec![ok_outcome("00"), err_outcome("permission denied"), ok_outcome("ff")];
    assert_eq!(aggregate_exitcode(&outcomes), EXITCODE_IOERR);
}

#[test]
fn aggregate_all_failures_is_ioerr() {
    let outcomes = vec![err_outcome("a"), err_outcome("b")];
    assert_eq!(aggregate_exitcode(&outcomes), EXITCODE_IOERR);
}
