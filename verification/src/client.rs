use vstd::prelude::*;
use vstd::string::StringExecFns;
use crate::checksum::sha256_hex;
use crate::checksum::sha256_hex_of;
use crate::errors::ClientError;
use crate::errors::STATUS_NOT_FOUND;
use crate::errors::STATUS_OK;
use crate::ident::Package;
use crate::ident::PackageArchive;
use crate::ident::PackageIdent;

verus! {

/// Interpret a finished artifact download: wrap the downloaded file's path
/// into an archive handle; translate exactly the HTTP not-found failure into
/// the domain "remote artifact not found" error carrying the identifier; pass
/// every other failure through unchanged.
pub fn fetch_package_outcome(result: Result<String, ClientError>, ident: &PackageIdent) -> (r:
    Result<PackageArchive, ClientError>)
    ensures
        result matches Ok(path) ==> (r matches Ok(a) && a.path == path),
        result matches Err(e) ==> r == (if e == ClientError::Http(STATUS_NOT_FOUND) {
            Err::<PackageArchive, ClientError>(ClientError::RemotePackageNotFound(*ident))
        } else {
            Err::<PackageArchive, ClientError>(e)
        }),
{
    match result {
        Ok(path) => Ok(PackageArchive::new(path)),
        Err(e) => match e {
            ClientError::Http(code) => {
                if code == STATUS_NOT_FOUND {
                    Err(ClientError::RemotePackageNotFound(ident.clone()))
                } else {
                    Err(ClientError::Http(code))
                }
            },
            other => Err(other),
        },
    }
}

/// Interpret the show-metadata response: a not-found status names the missing
/// artifact, any other non-OK status is the bare HTTP error, and an OK status
/// hands the body on to the metadata decoder.
pub fn show_response_outcome(status: u16, body: String, ident: &PackageIdent) -> (r: Result<
    String,
    ClientError,
>)
    ensures
        status == STATUS_OK ==> (r matches Ok(b) && b == body),
        status == STATUS_NOT_FOUND ==> r == Err::<String, ClientError>(
            ClientError::RemotePackageNotFound(*ident),
        ),
        status != STATUS_OK && status != STATUS_NOT_FOUND ==> r == Err::<String, ClientError>(
            ClientError::Http(status),
        ),
{
    if status == STATUS_OK {
        Ok(body)
    } else if status == STATUS_NOT_FOUND {
        Err(ClientError::RemotePackageNotFound(ident.clone()))
    } else {
        Err(ClientError::Http(status))
    }
}

/// The URL an artifact archive is published to, with the archive's SHA-256
/// digest attached as the checksum the repository verifies:
/// `{repo}/pkgs/{origin}/{name}/{version}/{release}?checksum={digest}`.
pub fn put_package_request(repo: &str, package: &Package, data: &Vec<u8>) -> (r: String)
    ensures
        r@ == repo@ + "/pkgs/"@ + package.origin@ + "/"@ + package.name@ + "/"@ + package.version@
            + "/"@ + package.release@ + "?checksum="@ + sha256_hex_of(data@),
{
    let checksum = sha256_hex(data);
    let mut s = String::from_str(repo);
    s.append("/pkgs/");
    s.append(package.origin.as_str());
    s.append("/");
    s.append(package.name.as_str());
    s.append("/");
    s.append(package.version.as_str());
    s.append("/");
    s.append(package.release.as_str());
    s.append("?checksum=");
    s.append(checksum.as_str());
    proof {
        assert(s@ =~= repo@ + "/pkgs/"@ + package.origin@ + "/"@ + package.name@ + "/"@
            + package.version@ + "/"@ + package.release@ + "?checksum="@ + sha256_hex_of(data@));
    }
    s
}

} // verus!
