use vstd::prelude::*;
use vstd::string::StringExecFns;
use crate::errors::ClientError;
use crate::ident::PackageIdent;
use crate::strutil::after_last_slash;
use crate::strutil::file_name_of;

verus! {

/// The URL a public key is fetched from or published to by name:
/// `{repo}/keys/{key}`.
pub fn key_url(repo: &str, key: &str) -> (r: String)
    ensures
        r@ == repo@ + "/keys/"@ + key@,
{
    let mut s = String::from_str(repo);
    s.append("/keys/");
    s.append(key);
    proof {
        assert(s@ =~= repo@ + "/keys/"@ + key@);
    }
    s
}

/// The URL an artifact is downloaded from: `{repo}/pkgs/{ident}/download`.
pub fn download_url(repo: &str, ident: &PackageIdent) -> (r: String)
    ensures
        r@ == repo@ + "/pkgs/"@ + ident.text() + "/download"@,
{
    let mut s = String::from_str(repo);
    s.append("/pkgs/");
    let t = ident.to_text();
    s.append(t.as_str());
    s.append("/download");
    proof {
        assert(s@ =~= repo@ + "/pkgs/"@ + ident.text() + "/download"@);
    }
    s
}

/// The URL the show-metadata endpoint answers for an identifier: the
/// fully-qualified path when both version and release are given, the
/// `/latest` form otherwise.
pub fn url_show_package(repo: &str, ident: &PackageIdent) -> (r: String)
    requires
        ident.wf(),
    ensures
        ident.spec_fully_qualified() ==> r@ == repo@ + "/pkgs/"@ + ident.origin@ + "/"@
            + ident.name@ + "/"@ + ident.version->Some_0@ + "/"@ + ident.release->Some_0@,
        ident.version is Some && ident.release is None ==> r@ == repo@ + "/pkgs/"@
            + ident.origin@ + "/"@ + ident.name@ + "/"@ + ident.version->Some_0@ + "/latest"@,
        ident.version is None ==> r@ == repo@ + "/pkgs/"@ + ident.origin@ + "/"@ + ident.name@
            + "/latest"@,
{
    let mut s = String::from_str(repo);
    s.append("/pkgs/");
    let t = ident.to_text();
    s.append(t.as_str());
    if !ident.fully_qualified() {
        s.append("/latest");
    }
    proof {
        if ident.spec_fully_qualified() {
            assert(s@ =~= repo@ + "/pkgs/"@ + ident.origin@ + "/"@ + ident.name@ + "/"@
                + ident.version->Some_0@ + "/"@ + ident.release->Some_0@);
        } else if ident.version is Some {
            assert(s@ =~= repo@ + "/pkgs/"@ + ident.origin@ + "/"@ + ident.name@ + "/"@
                + ident.version->Some_0@ + "/latest"@);
        } else {
            assert(s@ =~= repo@ + "/pkgs/"@ + ident.origin@ + "/"@ + ident.name@ + "/latest"@);
        }
    }
    s
}

/// The URL a key file is published to, derived from its local path:
/// `{repo}/keys/{fileName}`; fails when the path has no file-name component.
pub fn put_key_url(repo: &str, path: &str) -> (r: Result<String, ClientError>)
    ensures
        after_last_slash(path@).len() == 0 ==> r == Err::<String, ClientError>(
            ClientError::NoFilePart,
        ),
        after_last_slash(path@).len() > 0 ==> (r matches Ok(u) && u@ == repo@ + "/keys/"@
            + after_last_slash(path@)),
{
    match file_name_of(path) {
        None => Err(ClientError::NoFilePart),
        Some(name) => {
            let mut s = String::from_str(repo);
            s.append("/keys/");
            s.append(name.as_str());
            proof {
                assert(s@ =~= repo@ + "/keys/"@ + after_last_slash(path@));
            }
            Ok(s)
        },
    }
}

} // verus!
