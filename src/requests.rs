//! Descriptions of the HTTP requests the client issues: method, URL, query
//! and headers, ready to be handed to a transport.

use vstd::prelude::*;

verus! {

/// The HTTP verbs the client uses.
#[derive(Clone, Copy, Debug, PartialEq, Eq, Structural)]
pub enum Method {
    Get,
    Put,
    Delete,
}

/// One fully described HTTP call.
#[derive(Debug)]
pub struct Request {
    pub method: Method,
    pub url: String,
    pub query: Vec<(String, String)>,
    pub headers: Vec<(String, String)>,
}

/// The client's identity and credentials, shared by every request it makes.
#[derive(Debug)]
pub struct Requests {
    pub token: String,
}

/// The name the client gives in its `User-Agent` header.
pub const USER_AGENT: &'static str = "actions";

/// Decimal digits of `n`, most significant first.
pub open spec fn decimal(n: nat) -> Seq<char>
    decreases n,
{
    if n < 10 {
        seq![digit(n)]
    } else {
        decimal(n / 10).push(digit(n % 10))
    }
}

pub open spec fn digit(d: nat) -> char {
    seq!['0', '1', '2', '3', '4', '5', '6', '7', '8', '9'][d as int]
}

fn digit_text(d: usize) -> (r: &'static str)
    requires
        d < 10,
    ensures
        r@ == seq![digit(d as nat)],
{
    proof {
        reveal_strlit("0123456789");
    }
    let all = "0123456789";
    assert(all@ =~= seq!['0', '1', '2', '3', '4', '5', '6', '7', '8', '9']);
    let r = all.substring_char(d, d + 1);
    assert(r@ =~= seq![digit(d as nat)]);
    r
}

/// The decimal digits of `n`.
fn usize_to_decimal(n: usize) -> (r: String)
    ensures
        r@ == decimal(n as nat),
{
    let mut rest = n;
    let mut acc = String::new();
    proof {
        assert(decimal(n as nat) =~= decimal(n as nat) + acc@);
    }
    while rest >= 10
        invariant
            decimal(n as nat) == decimal(rest as nat) + acc@,
        decreases rest,
    {
        let d = digit_text(rest % 10);
        proof {
            assert(decimal(rest as nat) == decimal((rest / 10) as nat).push(digit((rest % 10) as nat)));
            assert(decimal((rest / 10) as nat).push(digit((rest % 10) as nat)) + acc@
                =~= decimal((rest / 10) as nat) + (d@ + acc@));
        }
        acc = String::from_str(d).concat(acc.as_str());
        rest = rest / 10;
    }
    let d = digit_text(rest);
    proof {
        assert(decimal(rest as nat) == seq![digit(rest as nat)]);
    }
    String::from_str(d).concat(acc.as_str())
}

/// The `application/x-www-form-urlencoded` byte serialisation of a text's UTF-8 bytes.
pub uninterp spec fn form_urlencoded_of(s: Seq<char>) -> Seq<char>;

/// Relies on url's `form_urlencoded::byte_serialize`, collected into a string.
#[verifier::external_body]
fn form_urlencode(s: &str) -> (r: String)
    ensures
        r@ == form_urlencoded_of(s@),
{
    url::form_urlencoded::byte_serialize(s.as_bytes()).collect::<String>()
}

/// The headers every request carries.
pub open spec fn auth_headers(token: Seq<char>) -> Seq<(Seq<char>, Seq<char>)> {
    seq![("User-Agent"@, USER_AGENT@), ("Authorization"@, "bearer "@ + token)]
}

/// A listing's query asking for pages of a hundred items.
pub open spec fn per_page_query() -> Seq<(Seq<char>, Seq<char>)> {
    seq![("per_page"@, "100"@)]
}

/// `r` is a request of `method` to `url` with query `query`, authorised by `token`.
pub open spec fn describes(r: Request, method: Method, url: Seq<char>, query: Seq<(Seq<char>, Seq<char>)>, token: Seq<char>) -> bool {
    &&& r.method == method
    &&& r.url@ == url
    &&& r.query.deep_view() == query
    &&& r.headers.deep_view() == auth_headers(token)
}

fn pair(k: &str, v: &str) -> (r: (String, String))
    ensures
        r.deep_view() == (k@, v@),
{
    (String::from_str(k), String::from_str(v))
}

fn per_page() -> (r: Vec<(String, String)>)
    ensures
        r.deep_view() == per_page_query(),
{
    let mut q: Vec<(String, String)> = Vec::new();
    q.push(pair("per_page", "100"));
    assert(q.deep_view() =~= per_page_query());
    q
}

impl Requests {
    /// Adds the client's identifying and authorisation headers to a request.
    fn builder(&self, method: Method, url: String, query: Vec<(String, String)>) -> (r: Request)
        ensures
            describes(r, method, url@, query.deep_view(), self.token@),
    {
        let mut headers: Vec<(String, String)> = Vec::new();
        headers.push(pair("User-Agent", USER_AGENT));
        let auth = String::from_str("bearer ").concat(self.token.as_str());
        headers.push((String::from_str("Authorization"), auth));
        assert(headers.deep_view() =~= auth_headers(self.token@));
        Request { method, url, query, headers }
    }

    /// A `GET` of `url`, with no query.
    pub fn get(&self, url: &str) -> (r: Request)
        ensures
            describes(r, Method::Get, url@, Seq::empty(), self.token@),
    {
        let q: Vec<(String, String)> = Vec::new();
        assert(q.deep_view() =~= Seq::<(Seq<char>, Seq<char>)>::empty());
        self.builder(Method::Get, String::from_str(url), q)
    }

    /// A `DELETE` of `url`, with no query.
    pub fn delete(&self, url: &str) -> (r: Request)
        ensures
            describes(r, Method::Delete, url@, Seq::empty(), self.token@),
    {
        let q: Vec<(String, String)> = Vec::new();
        assert(q.deep_view() =~= Seq::<(Seq<char>, Seq<char>)>::empty());
        self.builder(Method::Delete, String::from_str(url), q)
    }

    /// The first page of a code search for workflow files in an organisation.
    pub fn repos_request(&self, org: &str) -> (r: Request)
        ensures
            describes(
                r,
                Method::Get,
                "https://api.github.com/search/code"@,
                seq![("per_page"@, "100"@), ("q"@, "org:"@ + org@ + " path:.github/workflows"@)],
                self.token@,
            ),
    {
        let mut q: Vec<(String, String)> = Vec::new();
        q.push(pair("per_page", "100"));
        let search = String::from_str("org:").concat(org).concat(" path:.github/workflows");
        q.push((String::from_str("q"), search));
        let ghost want = seq![("per_page"@, "100"@), ("q"@, "org:"@ + org@ + " path:.github/workflows"@)];
        assert(q.deep_view() =~= want);
        self.builder(Method::Get, String::from_str("https://api.github.com/search/code"), q)
    }

    /// The public key with which a repository's secrets are encrypted.
    pub fn public_key_request(&self, repository: &str) -> (r: Request)
        ensures
            describes(
                r,
                Method::Get,
                "https://api.github.com/repos/"@ + repository@ + "/actions/secrets/public-key"@,
                Seq::empty(),
                self.token@,
            ),
    {
        let url = String::from_str("https://api.github.com/repos/").concat(repository).concat("/actions/secrets/public-key");
        self.get(url.as_str())
    }

    /// Deletes the secret `name` of a repository.
    pub fn delete_secret_request(&self, repository: &str, name: &str) -> (r: Request)
        ensures
            describes(
                r,
                Method::Delete,
                "https://api.github.com/repos/"@ + repository@ + "/actions/secrets/"@ + name@,
                Seq::empty(),
                self.token@,
            ),
    {
        let url = String::from_str("https://api.github.com/repos/").concat(repository).concat("/actions/secrets/").concat(name);
        self.delete(url.as_str())
    }

    /// Creates or replaces the secret `name` of a repository; the encrypted
    /// value and the id of the key it was sealed with go in the body.
    pub fn upsert_secret_request(&self, repository: &str, name: &str) -> (r: Request)
        ensures
            describes(
                r,
                Method::Put,
                "https://api.github.com/repos/"@ + repository@ + "/actions/secrets/"@ + name@,
                Seq::empty(),
                self.token@,
            ),
    {
        let url = String::from_str("https://api.github.com/repos/").concat(repository).concat("/actions/secrets/").concat(name);
        let q: Vec<(String, String)> = Vec::new();
        assert(q.deep_view() =~= Seq::<(Seq<char>, Seq<char>)>::empty());
        self.builder(Method::Put, url, q)
    }

    /// The first page of a repository's secrets.
    pub fn secrets_request(&self, repository: &str) -> (r: Request)
        ensures
            describes(
                r,
                Method::Get,
                "https://api.github.com/repos/"@ + repository@ + "/actions/secrets"@,
                per_page_query(),
                self.token@,
            ),
    {
        let url = String::from_str("https://api.github.com/repos/").concat(repository).concat("/actions/secrets");
        self.builder(Method::Get, url, per_page())
    }

    /// The first page of the artifacts of one run.
    pub fn artifacts_request(&self, repository: &str, run_id: usize) -> (r: Request)
        ensures
            describes(
                r,
                Method::Get,
                "https://api.github.com/repos/"@ + repository@ + "/actions/runs/"@ + decimal(run_id as nat) + "/artifacts"@,
                per_page_query(),
                self.token@,
            ),
    {
        let id = usize_to_decimal(run_id);
        let url = String::from_str("https://api.github.com/repos/").concat(repository).concat("/actions/runs/").concat(id.as_str()).concat("/artifacts");
        self.builder(Method::Get, url, per_page())
    }

    /// Deletes one artifact.
    pub fn delete_artifact_request(&self, repository: &str, artifact_id: usize) -> (r: Request)
        ensures
            describes(
                r,
                Method::Delete,
                "https://api.github.com/repos/"@ + repository@ + "/actions/artifacts/"@ + decimal(artifact_id as nat),
                Seq::empty(),
                self.token@,
            ),
    {
        let id = usize_to_decimal(artifact_id);
        let url = String::from_str("https://api.github.com/repos/").concat(repository).concat("/actions/artifacts/").concat(id.as_str());
        self.delete(url.as_str())
    }

    /// The first page of a repository's workflows.
    pub fn workflows_request(&self, repository: &str) -> (r: Request)
        ensures
            describes(
                r,
                Method::Get,
                "https://api.github.com/repos/"@ + repository@ + "/actions/workflows"@,
                per_page_query(),
                self.token@,
            ),
    {
        let url = String::from_str("https://api.github.com/repos/").concat(repository).concat("/actions/workflows");
        self.builder(Method::Get, url, per_page())
    }

    /// The first page of the completed runs of one workflow, named by its id
    /// or its file name, which is form-encoded into the path.
    pub fn runs_request(&self, repository: &str, workflow: &str) -> (r: Request)
        ensures
            describes(
                r,
                Method::Get,
                "https://api.github.com/repos/"@ + repository@ + "/actions/workflows/"@ + form_urlencoded_of(workflow@) + "/runs"@,
                seq![("per_page"@, "100"@), ("status"@, "completed"@)],
                self.token@,
            ),
    {
        let encoded = form_urlencode(workflow);
        let url = String::from_str("https://api.github.com/repos/").concat(repository).concat("/actions/workflows/").concat(encoded.as_str()).concat("/runs");
        let mut q: Vec<(String, String)> = Vec::new();
        q.push(pair("per_page", "100"));
        q.push(pair("status", "completed"));
        assert(q.deep_view() =~= seq![("per_page"@, "100"@), ("status"@, "completed"@)]);
        self.builder(Method::Get, url, q)
    }
}

} // verus!
