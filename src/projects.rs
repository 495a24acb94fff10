//! The projects API: lookups, listing of members, creation and deletion.
use vstd::prelude::*;
use vstd::utf8::encode_utf8;

use crate::encoding::{
    encode_path_segment, joined_pairs, lemma_path_segment, one_segment, pairs_view, path_segment_encoded, plain_pairs, Pairs,
};
use crate::params::{
    bool_string, bool_text, copy_pairs, insert_param, inserted, query_of, query_string,
    unique_names,
};
use crate::payload::{payload, payload_json, ProjectParams};
use crate::{is_request, opt_view, Gitlab, Method, Request};

verus! {

/// Options of a single-project lookup: the project's ID or path, and query
/// parameters.
pub struct SingleProjectOptions {
    pub id: String,
    pub params: Vec<(String, String)>,
}

impl SingleProjectOptions {
    pub fn builder(id: &str) -> (r: SingleProjectOptionsBuilder)
        ensures
            r.id() == id@,
            r.params() == Seq::<(Seq<char>, Seq<char>)>::empty(),
    {
        SingleProjectOptionsBuilder::new(id)
    }

    /// The form-encoded query string, or none when no parameter is set.
    pub fn to_query_string(&self) -> (r: Option<String>)
        ensures
            opt_view(r) == query_of(pairs_view(self.params@)),
            plain_pairs(pairs_view(self.params@)) && self.params@.len() > 0 ==> opt_view(r) == Some(
                joined_pairs(pairs_view(self.params@)),
            ),
    {
        query_string(&self.params)
    }
}

/// Builder of [`SingleProjectOptions`].
pub struct SingleProjectOptionsBuilder(SingleProjectOptions);

impl SingleProjectOptionsBuilder {
    pub closed spec fn id(&self) -> Seq<char> {
        self.0.id@
    }

    pub closed spec fn params(&self) -> Pairs {
        pairs_view(self.0.params@)
    }

    pub open spec fn wf(&self) -> bool {
        unique_names(self.params())
    }

    pub fn new(id: &str) -> (r: Self)
        ensures
            r.id() == id@,
            r.params() == Seq::<(Seq<char>, Seq<char>)>::empty(),
    {
        let r = SingleProjectOptionsBuilder(
            SingleProjectOptions { id: String::from_str(id), params: Vec::new() },
        );
        assert(r.params() =~= Seq::<(Seq<char>, Seq<char>)>::empty());
        r
    }

    /// Ask for the project's statistics: query parameter `statistics`.
    pub fn statistics(&mut self, statistics: bool) -> (r: &mut Self)
        requires
            old(self).wf(),
        ensures
            r.id() == old(self).id(),
            r.params() == inserted(old(self).params(), "statistics"@, bool_text(statistics)),
            r.wf(),
            *final(self) == *final(r),
    {
        insert_param(&mut self.0.params, "statistics", bool_string(statistics));
        self
    }

    pub fn build(&self) -> (r: SingleProjectOptions)
        ensures
            r.id@ == self.id(),
            pairs_view(r.params@) == self.params(),
    {
        SingleProjectOptions { id: self.0.id.clone(), params: copy_pairs(&self.0.params) }
    }
}

/// Options of the listing of a project's users: the project's ID or path,
/// and query parameters.
pub struct GetProjectUsersOptions {
    pub id: String,
    pub params: Vec<(String, String)>,
}

impl GetProjectUsersOptions {
    pub fn builder(id: &str) -> (r: GetProjectUsersOptionsBuilder)
        ensures
            r.id() == id@,
            r.params() == Seq::<(Seq<char>, Seq<char>)>::empty(),
    {
        GetProjectUsersOptionsBuilder::new(id)
    }

    /// The form-encoded query string, or none when no parameter is set.
    pub fn to_query_string(&self) -> (r: Option<String>)
        ensures
            opt_view(r) == query_of(pairs_view(self.params@)),
            plain_pairs(pairs_view(self.params@)) && self.params@.len() > 0 ==> opt_view(r) == Some(
                joined_pairs(pairs_view(self.params@)),
            ),
    {
        query_string(&self.params)
    }
}

/// Builder of [`GetProjectUsersOptions`].
pub struct GetProjectUsersOptionsBuilder(GetProjectUsersOptions);

impl GetProjectUsersOptionsBuilder {
    pub closed spec fn id(&self) -> Seq<char> {
        self.0.id@
    }

    pub closed spec fn params(&self) -> Pairs {
        pairs_view(self.0.params@)
    }

    pub open spec fn wf(&self) -> bool {
        unique_names(self.params())
    }

    pub fn new(id: &str) -> (r: Self)
        ensures
            r.id() == id@,
            r.params() == Seq::<(Seq<char>, Seq<char>)>::empty(),
    {
        let r = GetProjectUsersOptionsBuilder(
            GetProjectUsersOptions { id: String::from_str(id), params: Vec::new() },
        );
        assert(r.params() =~= Seq::<(Seq<char>, Seq<char>)>::empty());
        r
    }

    /// Keep only users that match `user`: query parameter `search`.
    pub fn search_for_user(&mut self, user: &str) -> (r: &mut Self)
        requires
            old(self).wf(),
        ensures
            r.id() == old(self).id(),
            r.params() == inserted(old(self).params(), "search"@, user@),
            r.wf(),
            *final(self) == *final(r),
    {
        insert_param(&mut self.0.params, "search", String::from_str(user));
        self
    }

    pub fn build(&self) -> (r: GetProjectUsersOptions)
        ensures
            r.id@ == self.id(),
            pairs_view(r.params@) == self.params(),
    {
        GetProjectUsersOptions { id: self.0.id.clone(), params: copy_pairs(&self.0.params) }
    }
}

/// Visibility of a project.
#[derive(Debug, Clone, Copy, PartialEq, Eq, Structural)]
pub enum Visibility {
    Public,
    Private,
    Internal,
}

/// A client for the projects API.
pub struct Projects<'a> {
    gitlab: &'a Gitlab,
}

/// The projects of one user.
pub struct UserProjects<'a> {
    gitlab: &'a Gitlab,
    user: String,
}

pub struct Permission {
    pub access_level: u8,
    pub notification_level: u8,
}

pub struct PermissionsWrapper {
    pub project_access: Option<Permission>,
    pub group_access: Option<Permission>,
}

pub struct User {
    pub id: u64,
    pub name: String,
}

pub struct Namespace {
    pub id: u64,
    pub name: String,
    pub path: String,
    pub kind: String,
    pub full_path: String,
}

pub struct Statistic {
    pub commit_count: u32,
    pub storage_size: u64,
    pub repository_size: u64,
    pub lfs_objects_size: u64,
    pub job_artifacts_size: u64,
}

pub struct ProjectLinks {
    pub self_link: String,
    pub issues: String,
    pub merge_requests: String,
    pub repo_branches: String,
    pub labels: String,
    pub events: String,
    pub members: String,
}

pub struct Group {
    pub group_id: u64,
    pub group_name: String,
    pub group_access_level: u16,
}

/// A project as the API describes it.
pub struct Project {
    pub id: u64,
    pub description: Option<String>,
    pub default_branch: Option<String>,
    pub visibility: String,
    pub ssh_url_to_repo: String,
    pub http_url_to_repo: String,
    pub web_url: String,
    pub tag_list: Vec<String>,
    pub owner: Option<User>,
    pub name: String,
    pub name_with_namespace: String,
    pub path: String,
    pub path_with_namespace: String,
    pub issues_enabled: bool,
    pub open_issues_count: u32,
    pub merge_requests_enabled: bool,
    pub jobs_enabled: Option<bool>,
    pub wiki_enabled: Option<bool>,
    pub snippets_enabled: bool,
    pub container_registry_enabled: Option<bool>,
    pub created_at: String,
    pub last_activity_at: String,
    pub creator_id: u32,
    pub namespace: Namespace,
    pub import_status: String,
    pub import_error: Option<String>,
    pub permissions: Option<PermissionsWrapper>,
    pub archived: bool,
    pub avatar_url: Option<String>,
    pub shared_runners_enabled: bool,
    pub forks_count: u32,
    pub star_count: u32,
    pub ci_config_path: Option<String>,
    pub runners_token: Option<String>,
    pub public_jobs: bool,
    pub shared_with_groups: Vec<Group>,
    pub repository_storage: Option<String>,
    pub only_allow_merge_if_pipeline_succeeds: bool,
    pub only_allow_merge_if_all_discussions_are_resolved: Option<bool>,
    pub printing_merge_requests_link_enabled: Option<bool>,
    pub request_access_enabled: bool,
    pub approvals_before_merge: u8,
    pub statistics: Option<Statistic>,
    pub links: Option<ProjectLinks>,
}

/// A path followed by its query string, if there is one.
pub open spec fn with_query(path: Seq<char>, query: Option<Seq<char>>) -> Seq<char> {
    match query {
        Some(q) => path + "?"@ + q,
        None => path,
    }
}

/// The path of the project `id`, with the ID encoded as one path segment.
pub open spec fn project_path(id: Seq<char>) -> Seq<char> {
    "/projects/"@ + path_segment_encoded(id)
}

impl<'a> Projects<'a> {
    pub closed spec fn client(&self) -> Gitlab {
        *self.gitlab
    }

    pub fn new(gitlab: &'a Gitlab) -> (r: Projects<'a>)
        ensures
            r.client() == *gitlab,
    {
        Projects { gitlab }
    }

    fn resource(id: &str, more: &str) -> (r: String)
        ensures
            r@ == project_path(id@) + more@,
            one_segment(path_segment_encoded(id@), id@),
    {
        proof {
            lemma_path_segment(id@);
        }
        let encoded = encode_path_segment(id);
        String::from_str("/projects/").concat(encoded.as_str()).concat(more)
    }

    fn with_query_string(path: String, query: Option<String>) -> (r: String)
        ensures
            r@ == with_query(path@, opt_view(query)),
    {
        match query {
            Some(q) => path.concat("?").concat(q.as_str()),
            None => path,
        }
    }

    /// The lookup of one project, with its options as query string.
    pub fn project(&self, options: &SingleProjectOptions) -> (r: Request)
        ensures
            is_request(
                r,
                Method::Get,
                self.client().base() + with_query(
                    project_path(options.id@),
                    query_of(pairs_view(options.params@)),
                ),
                self.client().creds(),
                None,
            ),
            one_segment(path_segment_encoded(options.id@), options.id@),
    {
        proof {
            reveal_strlit("");
        }
        let path = Self::resource(options.id.as_str(), "");
        assert(path@ =~= project_path(options.id@));
        let uri = Self::with_query_string(path, options.to_query_string());
        self.gitlab.get(uri.as_str())
    }

    /// The listing of a project's users, with its options as query string.
    pub fn users(&self, options: &GetProjectUsersOptions) -> (r: Request)
        ensures
            is_request(
                r,
                Method::Get,
                self.client().base() + with_query(
                    project_path(options.id@) + "/users"@,
                    query_of(pairs_view(options.params@)),
                ),
                self.client().creds(),
                None,
            ),
            one_segment(path_segment_encoded(options.id@), options.id@),
    {
        let path = Self::resource(options.id.as_str(), "/users");
        let uri = Self::with_query_string(path, options.to_query_string());
        self.gitlab.get(uri.as_str())
    }

    /// The creation of a project; the body is its JSON payload.
    pub fn create(&self, params: &ProjectParams) -> (r: Request)
        ensures
            is_request(
                r,
                Method::Post,
                self.client().base() + "/projects/"@,
                self.client().creds(),
                Some(encode_utf8(payload(params@))),
            ),
    {
        let json = payload_json(params);
        let body = json.as_str().as_bytes_vec();
        self.gitlab.post("/projects/", body)
    }

    /// The deletion of the project `id`.
    pub fn delete(&self, id: &str) -> (r: Request)
        ensures
            is_request(
                r,
                Method::Delete,
                self.client().base() + project_path(id@),
                self.client().creds(),
                None,
            ),
            one_segment(path_segment_encoded(id@), id@),
    {
        proof {
            reveal_strlit("");
        }
        let path = Self::resource(id, "");
        assert(path@ =~= project_path(id@));
        self.gitlab.delete(path.as_str())
    }
}

} // verus!
