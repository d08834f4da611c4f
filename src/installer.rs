use vstd::prelude::*;
use vstd::string::*;
use crate::error::Error;

verus! {

/// The bytes of the member called `name` in the zip archive `archive`, or
/// `None` when the archive cannot be read or holds no such member.
pub uninterp spec fn zip_member(archive: Seq<u8>, name: Seq<char>) -> Option<Seq<u8>>;

/// Relies on zip's `ZipArchive::new` and `ZipArchive::by_name`, and on reading
/// the member found to its end: yields the member's bytes, or `None` when
/// opening, finding or reading fails. The outcome depends on the archive's
/// bytes and the name alone.
#[verifier::external_body]
fn read_member(archive: &Vec<u8>, name: &str) -> (r: Option<Vec<u8>>)
    ensures
        r matches Some(b) ==> zip_member(archive@, name@) == Some(b@),
        r is None ==> zip_member(archive@, name@) is None,
{
    let mut zip = zip::ZipArchive::new(std::io::Cursor::new(archive.as_slice())).ok()?;
    let mut member = zip.by_name(name).ok()?;
    let mut out = Vec::new();
    std::io::Read::read_to_end(&mut member, &mut out).ok()?;
    Some(out)
}

/// The name of the overlay descriptor inside an installer archive.
pub open spec fn descriptor_name() -> Seq<char> {
    "version.json"@
}

/// The overlay descriptor carried by an installer archive; `Parse` when the
/// archive is unreadable or lacks it.
pub fn installer_descriptor(archive: &Vec<u8>) -> (r: Result<Vec<u8>, Error>)
    ensures
        r matches Ok(b) ==> zip_member(archive@, descriptor_name()) == Some(b@),
        r is Err <==> zip_member(archive@, descriptor_name()) is None,
        r matches Err(e) ==> e == Error::Parse,
{
    match read_member(archive, "version.json") {
        Some(b) => Ok(b),
        None => Err(Error::Parse),
    }
}

} // verus!
