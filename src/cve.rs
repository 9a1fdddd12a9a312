//! CVE records of crates, each with its page address.

use vstd::prelude::*;

verus! {

/// A CVE entry for a crate, with the range of versions it names.
pub struct CveInfo {
    cve_id: String,
    url: String,
    description: String,
    crate_name: String,
    start_version: String,
    end_version: String,
}

/// Every CVE entry of the store.
pub struct Allcve {
    cves: Vec<CveInfo>,
}

/// The page of a CVE record: `https://www.cve.org/CVERecord?id=<id>`.
pub open spec fn cve_url(id: Seq<char>) -> Seq<char> {
    "https://www.cve.org/CVERecord?id="@ + id
}

impl CveInfo {
    /// A CVE entry from its stored fields; the page address comes from the id.
    pub fn from_row(
        cve_id: String,
        crate_name: String,
        start_version: String,
        end_version: String,
        description: String,
    ) -> (r: CveInfo)
        ensures
            r.cve_id() == cve_id@,
            r.url() == cve_url(cve_id@),
            r.crate_name() == crate_name@,
            r.start_version() == start_version@,
            r.end_version() == end_version@,
            r.description() == description@,
    {
        let mut url = "https://www.cve.org/CVERecord?id=".to_owned();
        url.append(cve_id.as_str());
        CveInfo { cve_id, url, description, crate_name, start_version, end_version }
    }

    pub closed spec fn cve_id(&self) -> Seq<char> {
        self.cve_id@
    }

    pub closed spec fn url(&self) -> Seq<char> {
        self.url@
    }

    pub closed spec fn crate_name(&self) -> Seq<char> {
        self.crate_name@
    }

    pub closed spec fn start_version(&self) -> Seq<char> {
        self.start_version@
    }

    pub closed spec fn end_version(&self) -> Seq<char> {
        self.end_version@
    }

    pub closed spec fn description(&self) -> Seq<char> {
        self.description@
    }

    pub fn id_text(&self) -> (r: &str)
        ensures
            r@ == self.cve_id(),
    {
        self.cve_id.as_str()
    }

    pub fn url_text(&self) -> (r: &str)
        ensures
            r@ == self.url(),
    {
        self.url.as_str()
    }
}

impl Allcve {
    pub fn new(cves: Vec<CveInfo>) -> (r: Allcve)
        ensures
            r.entries() == cves@,
    {
        Allcve { cves }
    }

    pub closed spec fn entries(&self) -> Seq<CveInfo> {
        self.cves@
    }

    pub fn cves(&self) -> (r: &Vec<CveInfo>)
        ensures
            r@ == self.entries(),
    {
        &self.cves
    }
}

} // verus!
