use vstd::prelude::*;
use crate::paths::{path_extension, path_file_name, spec_extension, spec_file_name};
use crate::protocol::{NO_VAL, no_val_text};

verus! {

/// A request for one media file, as a client sends it and the server
/// records it: its size in bytes, the owner's id, the file's name and
/// extension, the request header (`GET`, `POST` or `DELETE`), the file's
/// checksum (or the placeholder) and, on the client, the local path.
#[derive(Clone, Debug)]
pub struct RQM {
    pub size: i64,
    pub cpid: String,
    pub name: String,
    pub type_: String,
    pub header: String,
    pub chcksum: String,
    pub path: Option<String>,
}

/// A copy of an optional text equal to the one copied.
pub fn copy_opt_string(s: &Option<String>) -> (r: Option<String>)
    ensures
        r == *s,
{
    match s {
        Some(t) => Some(t.clone()),
        None => None,
    }
}

impl RQM {
    /// A field-by-field copy, equal to the one copied.
    pub fn duplicate(&self) -> (r: RQM)
        ensures
            r == *self,
    {
        RQM {
            size: self.size,
            cpid: self.cpid.clone(),
            name: self.name.clone(),
            type_: self.type_.clone(),
            header: self.header.clone(),
            chcksum: self.chcksum.clone(),
            path: copy_opt_string(&self.path),
        }
    }
}

impl RQM {
    /// The request for the file at `path` of `size` bytes: named after the
    /// path's last component, typed by its extension (empty without one),
    /// with the given header and owner, the given checksum or the
    /// placeholder, and the path; none when the path has no last component.
    pub fn create_from_parts(
        size: u64,
        path: &String,
        header: String,
        cpid: String,
        checksum: Option<String>,
    ) -> (res: Option<RQM>)
        ensures
            match res {
                Some(r) => {
                    &&& spec_file_name(path@) == Some(r.name@)
                    &&& match spec_extension(path@) {
                        Some(e) => r.type_@ == e,
                        None => r.type_@ == Seq::<char>::empty(),
                    }
                    &&& r.size == size as i64
                    &&& r.header == header
                    &&& r.cpid == cpid
                    &&& match checksum {
                        Some(c) => r.chcksum == c,
                        None => r.chcksum@ == no_val_text(),
                    }
                    &&& r.path == Some(*path)
                },
                None => spec_file_name(path@) is None,
            },
    {
        let name = match path_file_name(path.as_str()) {
            Some(n) => n,
            None => {
                return None;
            },
        };
        let type_ = match path_extension(path.as_str()) {
            Some(e) => e,
            None => String::new(),
        };
        let chcksum = match checksum {
            Some(c) => c,
            None => {
                proof {
                    reveal_strlit("N//A");
                }
                String::from_str(NO_VAL)
            },
        };
        Some(
            RQM {
                size: size as i64,
                cpid,
                name,
                type_,
                header,
                chcksum,
                path: Some(path.clone()),
            },
        )
    }
}

} // verus!
