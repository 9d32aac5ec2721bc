//! Fetching the vendor's package: its name and address, the progress of the
//! download, and the script that unpacks it.

use crate::decimal::{parse_unsigned, read_unsigned};
use crate::text::chars_of;
use vstd::prelude::*;
use vstd::string::StringExecFns;

verus! {

/// The directory the package is downloaded to and unpacked in.
pub const PACKAGE_DIRECTORY: &'static str = "/tmp/xunlei_bin";

/// The address below which the vendor offers its packages.
pub const PACKAGE_SOURCE: &'static str = "http://down.sandai.net/nas/";

/// The file name of the package for an architecture.
pub fn package_filename(arch: &str) -> (filename: String)
    ensures
        filename@ == "nasxunlei-DSM7-"@ + arch@ + ".spk"@,
{
    String::from_str("nasxunlei-DSM7-").concat(arch).concat(".spk")
}

/// The address of a package.
pub fn package_url(filename: &str) -> (url: String)
    ensures
        url@ == PACKAGE_SOURCE@ + filename@,
{
    String::from_str(PACKAGE_SOURCE).concat(filename)
}

/// The size that a `Content-Length` header announces.
pub fn announced_size(content_length: &str) -> (size: Option<u64>)
    ensures
        size == (match parse_unsigned(content_length@, u64::MAX as nat) {
            Some(n) => Some(n as u64),
            None => None,
        }),
{
    let chars = chars_of(content_length);
    read_unsigned(chars.as_slice(), u64::MAX)
}

/// How much of a download is done once `read` more bytes have come in: never
/// more than the size announced.
pub open spec fn progress_after(downloaded: u64, read: usize, total: u64) -> u64 {
    if downloaded + read <= total {
        (downloaded + read) as u64
    } else {
        total
    }
}

/// How much of a download is done once `read` more bytes have come in.
pub fn advance(downloaded: u64, read: usize, total: u64) -> (position: u64)
    ensures
        position == progress_after(downloaded, read, total),
{
    if downloaded >= total {
        total
    } else if read as u64 >= total - downloaded {
        total
    } else {
        downloaded + read as u64
    }
}

/// The shell script that unpacks the package `filename` in `dir`: it takes
/// the programs and the web UI out of the package, moves them into `dir`,
/// and removes what is left over.
pub open spec fn unpack_script_text(dir: Seq<char>, filename: Seq<char>) -> Seq<char> {
    "tar --wildcards -Oxf $(find "@ + dir + " -type f -name "@ + filename
        + " | head -n1) package.tgz | tar --wildcards -xJC "@ + dir
        + " 'bin/bin/*' 'ui/index.cgi' &&\n                    mv "@ + dir + "/bin/bin/* "@ + dir
        + "/ &&\n                    mv "@ + dir + "/ui/index.cgi "@ + dir
        + "/xunlei-pan-cli-web &&\n                    rm -rf "@ + dir
        + "/bin/bin &&\n                    rm -rf "@ + dir
        + "/bin &&\n                    rm -rf "@ + dir + "/ui &&\n                    rm -f "@
        + dir + "/version_code "@ + dir + "/"@ + filename + "\n                "@
}

/// The shell script that unpacks the package `filename` in `dir`.
pub fn unpack_script(dir: &str, filename: &str) -> (script: String)
    ensures
        script@ == unpack_script_text(dir@, filename@),
{
    String::from_str("tar --wildcards -Oxf $(find ").concat(dir).concat(" -type f -name ").concat(
        filename,
    ).concat(" | head -n1) package.tgz | tar --wildcards -xJC ").concat(dir).concat(
        " 'bin/bin/*' 'ui/index.cgi' &&\n                    mv ",
    ).concat(dir).concat("/bin/bin/* ").concat(dir).concat(
        "/ &&\n                    mv ",
    ).concat(dir).concat("/ui/index.cgi ").concat(dir).concat(
        "/xunlei-pan-cli-web &&\n                    rm -rf ",
    ).concat(dir).concat("/bin/bin &&\n                    rm -rf ").concat(dir).concat(
        "/bin &&\n                    rm -rf ",
    ).concat(dir).concat("/ui &&\n                    rm -f ").concat(dir).concat(
        "/version_code ",
    ).concat(dir).concat("/").concat(filename).concat("\n                ")
}

} // verus!
