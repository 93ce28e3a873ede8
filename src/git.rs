//! The revision of a repository under test, as shown in reports.
use vstd::prelude::*;

verus! {

/// Branch and latest commit of a repository.
#[derive(Debug)]
pub struct GitInfo {
    pub branch: String,
    pub commit_short: String,
    pub commit_message: String,
}

impl GitInfo {
    /// One line: `<commit> (<branch>) <message>`.
    pub fn summary(&self) -> (r: String)
        ensures
            r@ == self.commit_short@ + " ("@ + self.branch@ + ") "@ + self.commit_message@,
    {
        let mut s = self.commit_short.clone();
        s.append(" (");
        s.append(self.branch.as_str());
        s.append(") ");
        s.append(self.commit_message.as_str());
        s
    }
}

} // verus!
