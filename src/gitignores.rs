//! The gitignore templates API.
use vstd::prelude::*;

use crate::encoding::{encode_path_segment, lemma_path_segment, one_segment, path_segment_encoded};
use crate::{is_request, Gitlab, Method, Request};

verus! {

/// A client for the gitignore templates API.
pub struct GitIgnores<'a> {
    gitlab: &'a Gitlab,
}

/// A gitignore template.
pub struct Template {
    pub name: String,
    pub content: Option<String>,
}

impl<'a> GitIgnores<'a> {
    pub closed spec fn client(&self) -> Gitlab {
        *self.gitlab
    }

    pub fn new(gitlab: &'a Gitlab) -> (r: GitIgnores<'a>)
        ensures
            r.client() == *gitlab,
    {
        GitIgnores { gitlab }
    }

    fn resource(more: &str) -> (r: String)
        ensures
            r@ == "/templates/gitignores"@ + more@,
    {
        String::from_str("/templates/gitignores").concat(more)
    }

    /// The listing of all templates.
    pub fn templates(&self) -> (r: Request)
        ensures
            is_request(
                r,
                Method::Get,
                self.client().base() + "/templates/gitignores"@,
                self.client().creds(),
                None,
            ),
    {
        proof {
            reveal_strlit("");
        }
        let path = Self::resource("");
        assert(path@ =~= "/templates/gitignores"@);
        self.gitlab.get(path.as_str())
    }

    /// The lookup of the template `name`, encoded as one path segment.
    pub fn single_template(&self, name: &str) -> (r: Request)
        ensures
            is_request(
                r,
                Method::Get,
                self.client().base() + "/templates/gitignores"@ + "/"@ + path_segment_encoded(
                    name@,
                ),
                self.client().creds(),
                None,
            ),
            one_segment(path_segment_encoded(name@), name@),
    {
        proof {
            lemma_path_segment(name@);
        }
        let encoded = encode_path_segment(name);
        let more = String::from_str("/").concat(encoded.as_str());
        let path = Self::resource(more.as_str());
        let r = self.gitlab.get(path.as_str());
        assert(r.url@ =~= self.client().base() + "/templates/gitignores"@ + "/"@
            + path_segment_encoded(name@));
        r
    }
}

} // verus!
