//! The parameters of a new project and their JSON form, in which every
//! unset optional field is left out.
use vstd::prelude::*;

use crate::json::{decimal, json_quoted, number_json, quote_json};
use crate::opt_view;
use crate::params::bool_text;

verus! {

/// Parameters of a project to create.
pub struct ProjectParams {
    pub name: String,
    pub path: Option<String>,
    pub namespace_id: Option<u64>,
    pub default_branch: Option<String>,
    pub description: Option<String>,
    pub issues_enabled: Option<bool>,
    pub merge_requests_enabled: Option<bool>,
    pub jobs_enabled: Option<bool>,
    pub wiki_enabled: Option<bool>,
    pub snippets_enabled: Option<bool>,
    pub container_registry_enabled: Option<bool>,
    pub shared_runners_enabled: Option<bool>,
    pub visibility: Option<String>,
    pub import_url: Option<String>,
    pub public_jobs: Option<bool>,
    pub only_allow_merge_if_pipeline_succeeds: Option<bool>,
    pub only_allow_merge_if_all_discussions_are_resolved: Option<bool>,
    pub lfs_enabled: Option<bool>,
    pub request_access_enabled: Option<bool>,
    pub tag_list: Option<Vec<String>>,
    pub printing_merge_requests_link_enabled: Option<bool>,
    pub ci_config_path: Option<String>,
    pub repository_storage: Option<String>,
    pub approvals_before_merge: Option<u8>,
}

/// What a [`ProjectParams`] holds, as plain values.
pub struct ProjectParamsView {
    pub name: Seq<char>,
    pub path: Option<Seq<char>>,
    pub namespace_id: Option<u64>,
    pub default_branch: Option<Seq<char>>,
    pub description: Option<Seq<char>>,
    pub issues_enabled: Option<bool>,
    pub merge_requests_enabled: Option<bool>,
    pub jobs_enabled: Option<bool>,
    pub wiki_enabled: Option<bool>,
    pub snippets_enabled: Option<bool>,
    pub container_registry_enabled: Option<bool>,
    pub shared_runners_enabled: Option<bool>,
    pub visibility: Option<Seq<char>>,
    pub import_url: Option<Seq<char>>,
    pub public_jobs: Option<bool>,
    pub only_allow_merge_if_pipeline_succeeds: Option<bool>,
    pub only_allow_merge_if_all_discussions_are_resolved: Option<bool>,
    pub lfs_enabled: Option<bool>,
    pub request_access_enabled: Option<bool>,
    pub tag_list: Option<Seq<Seq<char>>>,
    pub printing_merge_requests_link_enabled: Option<bool>,
    pub ci_config_path: Option<Seq<char>>,
    pub repository_storage: Option<Seq<char>>,
    pub approvals_before_merge: Option<u8>,
}

pub open spec fn opt_list_view(o: Option<Vec<String>>) -> Option<Seq<Seq<char>>> {
    match o {
        Some(v) => Some(strings_view(v@)),
        None => None,
    }
}

pub open spec fn strings_view(v: Seq<String>) -> Seq<Seq<char>> {
    v.map_values(|s: String| s@)
}

impl View for ProjectParams {
    type V = ProjectParamsView;

    open spec fn view(&self) -> ProjectParamsView {
        ProjectParamsView {
            name: self.name@,
            path: opt_view(self.path),
            namespace_id: self.namespace_id,
            default_branch: opt_view(self.default_branch),
            description: opt_view(self.description),
            issues_enabled: self.issues_enabled,
            merge_requests_enabled: self.merge_requests_enabled,
            jobs_enabled: self.jobs_enabled,
            wiki_enabled: self.wiki_enabled,
            snippets_enabled: self.snippets_enabled,
            container_registry_enabled: self.container_registry_enabled,
            shared_runners_enabled: self.shared_runners_enabled,
            visibility: opt_view(self.visibility),
            import_url: opt_view(self.import_url),
            public_jobs: self.public_jobs,
            only_allow_merge_if_pipeline_succeeds: self.only_allow_merge_if_pipeline_succeeds,
            only_allow_merge_if_all_discussions_are_resolved: self.only_allow_merge_if_all_discussions_are_resolved,
            lfs_enabled: self.lfs_enabled,
            request_access_enabled: self.request_access_enabled,
            tag_list: opt_list_view(self.tag_list),
            printing_merge_requests_link_enabled: self.printing_merge_requests_link_enabled,
            ci_config_path: opt_view(self.ci_config_path),
            repository_storage: opt_view(self.repository_storage),
            approvals_before_merge: self.approvals_before_merge,
        }
    }
}

/// The parameters that name a project and set nothing else.
pub open spec fn name_only(name: Seq<char>) -> ProjectParamsView {
    ProjectParamsView {
        name,
        path: None,
        namespace_id: None,
        default_branch: None,
        description: None,
        issues_enabled: None,
        merge_requests_enabled: None,
        jobs_enabled: None,
        wiki_enabled: None,
        snippets_enabled: None,
        container_registry_enabled: None,
        shared_runners_enabled: None,
        visibility: None,
        import_url: None,
        public_jobs: None,
        only_allow_merge_if_pipeline_succeeds: None,
        only_allow_merge_if_all_discussions_are_resolved: None,
        lfs_enabled: None,
        request_access_enabled: None,
        tag_list: None,
        printing_merge_requests_link_enabled: None,
        ci_config_path: None,
        repository_storage: None,
        approvals_before_merge: None,
    }
}

/// `"key":` as it opens a JSON object member.
pub open spec fn key_prefix(k: Seq<char>) -> Seq<char> {
    seq!['"'] + k + seq!['"', ':']
}

/// The texts joined by commas.
pub open spec fn comma_joined(s: Seq<Seq<char>>) -> Seq<char>
    decreases s.len(),
{
    if s.len() == 0 {
        seq![]
    } else if s.len() == 1 {
        s[0]
    } else {
        comma_joined(s.drop_last()) + seq![','] + s.last()
    }
}

pub open spec fn text_member(k: Seq<char>, v: Option<Seq<char>>) -> Seq<Seq<char>> {
    match v {
        Some(t) => seq![key_prefix(k) + json_quoted(t)],
        None => seq![],
    }
}

pub open spec fn flag_member(k: Seq<char>, v: Option<bool>) -> Seq<Seq<char>> {
    match v {
        Some(b) => seq![key_prefix(k) + bool_text(b)],
        None => seq![],
    }
}

pub open spec fn number_member(k: Seq<char>, v: Option<u64>) -> Seq<Seq<char>> {
    match v {
        Some(n) => seq![key_prefix(k) + decimal(n as nat)],
        None => seq![],
    }
}

pub open spec fn small_number_member(k: Seq<char>, v: Option<u8>) -> Seq<Seq<char>> {
    match v {
        Some(n) => seq![key_prefix(k) + decimal(n as nat)],
        None => seq![],
    }
}

pub open spec fn json_array(items: Seq<Seq<char>>) -> Seq<char> {
    seq!['['] + comma_joined(items.map_values(|t: Seq<char>| json_quoted(t))) + seq![']']
}

pub open spec fn list_member(k: Seq<char>, v: Option<Seq<Seq<char>>>) -> Seq<Seq<char>> {
    match v {
        Some(items) => seq![key_prefix(k) + json_array(items)],
        None => seq![],
    }
}

/// The members of the JSON payload, in field order; unset fields have none.
pub open spec fn members(v: ProjectParamsView) -> Seq<Seq<char>> {
    seq![key_prefix("name"@) + json_quoted(v.name)]
        + text_member("path"@, v.path)
        + number_member("namespace_id"@, v.namespace_id)
        + text_member("default_branch"@, v.default_branch)
        + text_member("description"@, v.description)
        + flag_member("issues_enabled"@, v.issues_enabled)
        + flag_member("merge_requests_enabled"@, v.merge_requests_enabled)
        + flag_member("jobs_enabled"@, v.jobs_enabled)
        + flag_member("wiki_enabled"@, v.wiki_enabled)
        + flag_member("snippets_enabled"@, v.snippets_enabled)
        + flag_member("container_registry_enabled"@, v.container_registry_enabled)
        + flag_member("shared_runners_enabled"@, v.shared_runners_enabled)
        + text_member("visibility"@, v.visibility)
        + text_member("import_url"@, v.import_url)
        + flag_member("public_jobs"@, v.public_jobs)
        + flag_member("only_allow_merge_if_pipeline_succeeds"@, v.only_allow_merge_if_pipeline_succeeds)
        + flag_member("only_allow_merge_if_all_discussions_are_resolved"@, v.only_allow_merge_if_all_discussions_are_resolved)
        + flag_member("lfs_enabled"@, v.lfs_enabled)
        + flag_member("request_access_enabled"@, v.request_access_enabled)
        + list_member("tag_list"@, v.tag_list)
        + flag_member("printing_merge_requests_link_enabled"@, v.printing_merge_requests_link_enabled)
        + text_member("ci_config_path"@, v.ci_config_path)
        + text_member("repository_storage"@, v.repository_storage)
        + small_number_member("approvals_before_merge"@, v.approvals_before_merge)
}

/// The JSON object sent to create a project.
pub open spec fn payload(v: ProjectParamsView) -> Seq<char> {
    seq!['{'] + comma_joined(members(v)) + seq!['}']
}

/// A project's payload holds its name alone when nothing else is set.
pub proof fn lemma_name_only_payload(name: Seq<char>)
    ensures
        payload(name_only(name)) == seq!['{'] + key_prefix("name"@) + json_quoted(name) + seq!['}'],
{
    let m = key_prefix("name"@) + json_quoted(name);
    assert(members(name_only(name)) =~= seq![m]);
}

fn key_string(key: &str) -> (r: String)
    ensures
        r@ == key_prefix(key@),
{
    proof {
        reveal_strlit("\"");
        reveal_strlit("\":");
    }
    let r = String::from_str("\"").concat(key).concat("\":");
    assert(r@ =~= key_prefix(key@));
    r
}

/// The texts joined by commas.
fn join_commas(items: &Vec<String>) -> (r: String)
    ensures
        r@ == comma_joined(strings_view(items@)),
{
    let ghost all = strings_view(items@);
    let mut r = String::new();
    let mut i: usize = 0;
    while i < items.len()
        invariant
            0 <= i <= items.len(),
            all == strings_view(items@),
            r@ == comma_joined(all.subrange(0, i as int)),
        decreases items.len() - i,
    {
        let ghost before = r@;
        assert(all[i as int] == items@[i as int]@);
        if i > 0 {
            r.append(",");
        }
        r.append(items[i].as_str());
        i += 1;
        proof {
            let s = all.subrange(0, i as int);
            assert(s.drop_last() =~= all.subrange(0, i as int - 1));
            assert(s.last() == all[i as int - 1]);
            if i == 1 {
                assert(before =~= Seq::<char>::empty());
                assert(r@ =~= comma_joined(s));
            } else {
                reveal_strlit(",");
                assert(","@ =~= seq![',']);
                assert(r@ =~= comma_joined(s));
            }
        }
    }
    assert(all.subrange(0, i as int) =~= all);
    r
}

fn push_member(ms: &mut Vec<String>, key: &str, value: &str)
    ensures
        strings_view(final(ms)@) == strings_view(old(ms)@).push(key_prefix(key@) + value@),
{
    ms.push(key_string(key).concat(value));
    assert(strings_view(ms@) =~= strings_view(old(ms)@).push(key_prefix(key@) + value@));
}

fn push_text(ms: &mut Vec<String>, key: &str, v: &Option<String>)
    ensures
        strings_view(final(ms)@) == strings_view(old(ms)@) + text_member(key@, opt_view(*v)),
{
    match v {
        Some(t) => {
            let q = quote_json(t.as_str());
            push_member(ms, key, q.as_str());
        },
        None => {},
    }
    assert(strings_view(ms@) =~= strings_view(old(ms)@) + text_member(key@, opt_view(*v)));
}

fn push_flag(ms: &mut Vec<String>, key: &str, v: Option<bool>)
    ensures
        strings_view(final(ms)@) == strings_view(old(ms)@) + flag_member(key@, v),
{
    proof {
        reveal_strlit("true");
        reveal_strlit("false");
    }
    match v {
        Some(b) => {
            let t = if b {
                "true"
            } else {
                "false"
            };
            push_member(ms, key, t);
        },
        None => {},
    }
    assert(strings_view(ms@) =~= strings_view(old(ms)@) + flag_member(key@, v));
}

fn push_number(ms: &mut Vec<String>, key: &str, v: Option<u64>)
    ensures
        strings_view(final(ms)@) == strings_view(old(ms)@) + number_member(key@, v),
{
    match v {
        Some(n) => {
            let t = number_json(n);
            push_member(ms, key, t.as_str());
        },
        None => {},
    }
    assert(strings_view(ms@) =~= strings_view(old(ms)@) + number_member(key@, v));
}

fn push_small_number(ms: &mut Vec<String>, key: &str, v: Option<u8>)
    ensures
        strings_view(final(ms)@) == strings_view(old(ms)@) + small_number_member(key@, v),
{
    match v {
        Some(n) => {
            let t = number_json(n as u64);
            push_member(ms, key, t.as_str());
        },
        None => {},
    }
    assert(strings_view(ms@) =~= strings_view(old(ms)@) + small_number_member(key@, v));
}

/// The JSON array of the texts.
fn array_json(items: &Vec<String>) -> (r: String)
    ensures
        r@ == json_array(strings_view(items@)),
{
    proof {
        reveal_strlit("[");
        reveal_strlit("]");
    }
    let ghost all = strings_view(items@);
    let mut quoted: Vec<String> = Vec::new();
    let mut i: usize = 0;
    while i < items.len()
        invariant
            0 <= i <= items.len(),
            all == strings_view(items@),
            quoted@.len() == i,
            strings_view(quoted@) == all.subrange(0, i as int).map_values(
                |t: Seq<char>| json_quoted(t),
            ),
        decreases items.len() - i,
    {
        let q = quote_json(items[i].as_str());
        let ghost q0 = quoted@;
        quoted.push(q);
        proof {
            assert(all[i as int] == items@[i as int]@);
            assert forall|j: int| 0 <= j <= i implies #[trigger] strings_view(quoted@)[j]
                == all.subrange(0, i as int + 1).map_values(|t: Seq<char>| json_quoted(t))[j] by {
                if j < i {
                    assert(quoted@[j] == q0[j]);
                    assert(strings_view(q0)[j] == all.subrange(0, i as int).map_values(
                        |t: Seq<char>| json_quoted(t),
                    )[j]);
                }
            }
        }
        i += 1;
        assert(strings_view(quoted@) =~= all.subrange(0, i as int).map_values(
            |t: Seq<char>| json_quoted(t),
        ));
    }
    assert(all.subrange(0, i as int) =~= all);
    let r = String::from_str("[").concat(join_commas(&quoted).as_str()).concat("]");
    assert(r@ =~= json_array(all));
    r
}

fn push_list(ms: &mut Vec<String>, key: &str, v: &Option<Vec<String>>)
    ensures
        strings_view(final(ms)@) == strings_view(old(ms)@) + list_member(key@, opt_list_view(*v)),
{
    match v {
        Some(items) => {
            let t = array_json(items);
            push_member(ms, key, t.as_str());
        },
        None => {},
    }
    assert(strings_view(ms@) =~= strings_view(old(ms)@) + list_member(key@, opt_list_view(*v)));
}

/// The JSON payload of `p`: an object with `name` and each optional field
/// that is set, in field order.
#[verifier::rlimit(50)]
pub fn payload_json(p: &ProjectParams) -> (r: String)
    ensures
        r@ == payload(p@),
{
    proof {
        reveal_strlit("{");
        reveal_strlit("}");
    }
    let mut ms: Vec<String> = Vec::new();
    assert(strings_view(ms@) =~= Seq::<Seq<char>>::empty());
    let q = quote_json(p.name.as_str());
    push_member(&mut ms, "name", q.as_str());
    push_text(&mut ms, "path", &p.path);
    push_number(&mut ms, "namespace_id", p.namespace_id);
    push_text(&mut ms, "default_branch", &p.default_branch);
    push_text(&mut ms, "description", &p.description);
    push_flag(&mut ms, "issues_enabled", p.issues_enabled);
    push_flag(&mut ms, "merge_requests_enabled", p.merge_requests_enabled);
    push_flag(&mut ms, "jobs_enabled", p.jobs_enabled);
    push_flag(&mut ms, "wiki_enabled", p.wiki_enabled);
    push_flag(&mut ms, "snippets_enabled", p.snippets_enabled);
    push_flag(&mut ms, "container_registry_enabled", p.container_registry_enabled);
    push_flag(&mut ms, "shared_runners_enabled", p.shared_runners_enabled);
    push_text(&mut ms, "visibility", &p.visibility);
    push_text(&mut ms, "import_url", &p.import_url);
    push_flag(&mut ms, "public_jobs", p.public_jobs);
    push_flag(&mut ms, "only_allow_merge_if_pipeline_succeeds", p.only_allow_merge_if_pipeline_succeeds);
    push_flag(&mut ms, "only_allow_merge_if_all_discussions_are_resolved", p.only_allow_merge_if_all_discussions_are_resolved);
    push_flag(&mut ms, "lfs_enabled", p.lfs_enabled);
    push_flag(&mut ms, "request_access_enabled", p.request_access_enabled);
    push_list(&mut ms, "tag_list", &p.tag_list);
    push_flag(&mut ms, "printing_merge_requests_link_enabled", p.printing_merge_requests_link_enabled);
    push_text(&mut ms, "ci_config_path", &p.ci_config_path);
    push_text(&mut ms, "repository_storage", &p.repository_storage);
    push_small_number(&mut ms, "approvals_before_merge", p.approvals_before_merge);
    assert(strings_view(ms@) == members(p@));
    let r = String::from_str("{").concat(join_commas(&ms).as_str()).concat("}");
    assert(r@ =~= payload(p@));
    r
}

fn copy_text(o: &Option<String>) -> (r: Option<String>)
    ensures
        opt_view(r) == opt_view(*o),
{
    match o {
        Some(s) => Some(s.clone()),
        None => None,
    }
}

fn copy_strings(v: &Vec<String>) -> (r: Vec<String>)
    ensures
        strings_view(r@) == strings_view(v@),
{
    let mut r: Vec<String> = Vec::new();
    let mut i: usize = 0;
    while i < v.len()
        invariant
            0 <= i <= v.len(),
            r@.len() == i,
            strings_view(r@) == strings_view(v@).subrange(0, i as int),
        decreases v.len() - i,
    {
        let ghost r0 = r@;
        r.push(v[i].clone());
        proof {
            assert forall|j: int| 0 <= j <= i implies #[trigger] strings_view(r@)[j]
                == strings_view(v@)[j] by {
                if j < i {
                    assert(r@[j] == r0[j]);
                    assert(strings_view(r0)[j] == strings_view(v@).subrange(0, i as int)[j]);
                }
            }
        }
        i += 1;
        assert(strings_view(r@) =~= strings_view(v@).subrange(0, i as int));
    }
    assert(strings_view(v@).subrange(0, i as int) =~= strings_view(v@));
    r
}

fn copy_list(o: &Option<Vec<String>>) -> (r: Option<Vec<String>>)
    ensures
        opt_list_view(r) == opt_list_view(*o),
{
    match o {
        Some(v) => Some(copy_strings(v)),
        None => None,
    }
}

impl ProjectParams {
    /// Parameters that name the project and set nothing else.
    pub fn new(name: &str) -> (r: Self)
        ensures
            r@ == name_only(name@),
    {
        ProjectParams {
            name: String::from_str(name),
            path: None,
            namespace_id: None,
            default_branch: None,
            description: None,
            issues_enabled: None,
            merge_requests_enabled: None,
            jobs_enabled: None,
            wiki_enabled: None,
            snippets_enabled: None,
            container_registry_enabled: None,
            shared_runners_enabled: None,
            visibility: None,
            import_url: None,
            public_jobs: None,
            only_allow_merge_if_pipeline_succeeds: None,
            only_allow_merge_if_all_discussions_are_resolved: None,
            lfs_enabled: None,
            request_access_enabled: None,
            tag_list: None,
            printing_merge_requests_link_enabled: None,
            ci_config_path: None,
            repository_storage: None,
            approvals_before_merge: None,
        }
    }

    pub fn builder(name: &str) -> (r: ProjectParamsBuilder)
        ensures
            r@ == name_only(name@),
    {
        ProjectParamsBuilder::new(name)
    }
}

/// Builder of [`ProjectParams`].
pub struct ProjectParamsBuilder(ProjectParams);

impl View for ProjectParamsBuilder {
    type V = ProjectParamsView;

    closed spec fn view(&self) -> ProjectParamsView {
        self.0@
    }
}

impl ProjectParamsBuilder {
    pub fn new(name: &str) -> (r: Self)
        ensures
            r@ == name_only(name@),
    {
        ProjectParamsBuilder(ProjectParams::new(name))
    }

    /// Set the project's path.
    pub fn path(&mut self, path: &str) -> (r: &mut Self)
        ensures
            r@ == (ProjectParamsView { path: Some(path@), ..old(self)@ }),
            *final(self) == *final(r),
    {
        self.0.path = Some(String::from_str(path));
        self
    }

    /// Set the namespace that the project goes in.
    pub fn namespace_id(&mut self, id: u64) -> (r: &mut Self)
        ensures
            r@ == (ProjectParamsView { namespace_id: Some(id), ..old(self)@ }),
            *final(self) == *final(r),
    {
        self.0.namespace_id = Some(id);
        self
    }

    /// Set the project's default branch.
    pub fn default_branch(&mut self, branch: &str) -> (r: &mut Self)
        ensures
            r@ == (ProjectParamsView { default_branch: Some(branch@), ..old(self)@ }),
            *final(self) == *final(r),
    {
        self.0.default_branch = Some(String::from_str(branch));
        self
    }

    /// The parameters set so far.
    pub fn build(&self) -> (r: ProjectParams)
        ensures
            r@ == self@,
    {
        ProjectParams {
            name: self.0.name.clone(),
            path: copy_text(&self.0.path),
            namespace_id: self.0.namespace_id,
            default_branch: copy_text(&self.0.default_branch),
            description: copy_text(&self.0.description),
            issues_enabled: self.0.issues_enabled,
            merge_requests_enabled: self.0.merge_requests_enabled,
            jobs_enabled: self.0.jobs_enabled,
            wiki_enabled: self.0.wiki_enabled,
            snippets_enabled: self.0.snippets_enabled,
            container_registry_enabled: self.0.container_registry_enabled,
            shared_runners_enabled: self.0.shared_runners_enabled,
            visibility: copy_text(&self.0.visibility),
            import_url: copy_text(&self.0.import_url),
            public_jobs: self.0.public_jobs,
            only_allow_merge_if_pipeline_succeeds: self.0.only_allow_merge_if_pipeline_succeeds,
            only_allow_merge_if_all_discussions_are_resolved: self.0.only_allow_merge_if_all_discussions_are_resolved,
            lfs_enabled: self.0.lfs_enabled,
            request_access_enabled: self.0.request_access_enabled,
            tag_list: copy_list(&self.0.tag_list),
            printing_merge_requests_link_enabled: self.0.printing_merge_requests_link_enabled,
            ci_config_path: copy_text(&self.0.ci_config_path),
            repository_storage: copy_text(&self.0.repository_storage),
            approvals_before_merge: self.0.approvals_before_merge,
        }
    }
}

} // verus!
