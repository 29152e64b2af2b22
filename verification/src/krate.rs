//! The state of one package version as recorded by the index, and the
//! reference links shown to recipients.

use vstd::prelude::*;

verus! {

/// Identity of a package version: its name and version string.
#[derive(Debug)]
pub struct CrateId {
    pub name: String,
    pub vers: String,
}

/// The state of one package version in an index record: its identity and
/// whether the version is yanked (retracted).
#[derive(Debug)]
pub struct Crate {
    pub id: CrateId,
    pub yanked: bool,
}

/// What parsing an index record yields: the package name, the version and the
/// yanked flag, as a function of the record's bytes alone. The grammar of a
/// record is the index's business; the library never states it.
pub uninterp spec fn parsed_record(bytes: Seq<u8>) -> Option<(Seq<char>, Seq<char>, bool)>;

/// Relies on serde_json::from_slice on serde_json::Value and on Value::get,
/// Value::as_str and Value::as_bool: a record parses to the name, vers and
/// yanked fields of the JSON object it encodes, a function of the bytes alone;
/// bytes that are not such an object (or not UTF-8) parse to nothing.
#[verifier::external_body]
fn parse_record_raw(bytes: &[u8]) -> (r: Option<(String, String, bool)>)
    ensures
        r is Some <==> parsed_record(bytes@) is Some,
        r matches Some(t) ==> parsed_record(bytes@) == Some((t.0@, t.1@, t.2)),
{
    let v: serde_json::Value = serde_json::from_slice(bytes).ok()?;
    let name = v.get("name")?.as_str()?.to_owned();
    let vers = v.get("vers")?.as_str()?.to_owned();
    let yanked = v.get("yanked")?.as_bool()?;
    Some((name, vers, yanked))
}

/// The view of a crate as the triple a record parses to.
pub open spec fn record_view(c: Crate) -> (Seq<char>, Seq<char>, bool) {
    (c.id.name@, c.id.vers@, c.yanked)
}

impl Crate {
    /// Parse one index record. Returns the recorded package state, or `None`
    /// when the bytes do not encode a record.
    pub fn parse_record(bytes: &[u8]) -> (r: Option<Crate>)
        ensures
            ({
                let p = parsed_record(bytes@);
                &&& r is Some <==> p is Some
                &&& (r matches Some(c) ==> p == Some(record_view(c)))
            }),
    {
        match parse_record_raw(bytes) {
            Some((name, vers, yanked)) => Some(Crate { id: CrateId { name, vers }, yanked }),
            None => None,
        }
    }

    /// The most recent state a package's index file records: the parse of the
    /// file's last line. `None` when the file has no lines or the last line is
    /// not a record.
    pub fn last_record(lines: &Vec<Vec<u8>>) -> (r: Option<Crate>)
        ensures
            lines@.len() == 0 ==> r is None,
            lines@.len() > 0 ==> ({
                let p = parsed_record(lines@.last()@);
                &&& r is Some <==> p is Some
                &&& (r matches Some(c) ==> p == Some(record_view(c)))
            }),
    {
        if lines.len() == 0 {
            None
        } else {
            Crate::parse_record(&lines[lines.len() - 1])
        }
    }

    /// The package's page on the registry.
    pub fn cratesio(&self) -> (r: String)
        ensures
            r@ == cratesio_url(self.id.name@),
    {
        let mut s = String::from_str("https://crates.io/crates/");
        s.append(self.id.name.as_str());
        s
    }

    /// The package's page on the lib.rs mirror.
    pub fn librs(&self) -> (r: String)
        ensures
            r@ == librs_url(self.id.name@),
    {
        let mut s = String::from_str("https://lib.rs/crates/");
        s.append(self.id.name.as_str());
        s
    }

    /// The documentation page for this exact version. The docs host redirects
    /// the name-and-version form to the right page even where the library name
    /// differs from the package name.
    pub fn docsrs(&self) -> (r: String)
        ensures
            r@ == docsrs_url(self.id.name@, self.id.vers@),
    {
        let mut s = String::from_str("https://docs.rs/");
        s.append(self.id.name.as_str());
        s.append("/");
        s.append(self.id.vers.as_str());
        s
    }

    /// The three reference links, as HTML anchors separated by spaces.
    pub fn html_links(&self) -> (r: String)
        ensures
            r@ == html_links_text(self.id.name@, self.id.vers@),
    {
        let mut s = String::from_str("<a href='");
        s.append(self.docsrs().as_str());
        s.append("'>[docs.rs]</a> <a href='");
        s.append(self.cratesio().as_str());
        s.append("'>[crates.io]</a> <a href='");
        s.append(self.librs().as_str());
        s.append("'>[lib.rs]</a>");
        s
    }
}

pub open spec fn cratesio_url(name: Seq<char>) -> Seq<char> {
    "https://crates.io/crates/"@ + name
}

pub open spec fn librs_url(name: Seq<char>) -> Seq<char> {
    "https://lib.rs/crates/"@ + name
}

pub open spec fn docsrs_url(name: Seq<char>, vers: Seq<char>) -> Seq<char> {
    "https://docs.rs/"@ + name + "/"@ + vers
}

pub open spec fn html_links_text(name: Seq<char>, vers: Seq<char>) -> Seq<char> {
    "<a href='"@ + docsrs_url(name, vers) + "'>[docs.rs]</a> <a href='"@ + cratesio_url(name)
        + "'>[crates.io]</a> <a href='"@ + librs_url(name) + "'>[lib.rs]</a>"@
}

} // verus!
