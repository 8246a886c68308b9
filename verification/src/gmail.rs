//! The Gmail service: the daemon's method table, request dispatch and
//! health surface.
//!
//! The service binds five methods — `inbox`, `unread`, `search`, `send` and
//! `thread` — to invocations of the backend script. Dispatch looks the
//! method up, rejects an unknown name before any backend is touched,
//! rejects a request that omits a required parameter likewise, applies the
//! declared defaults, and fixes the ordered positional arguments of the
//! backend command. What each call returns is pinned by [`spec_dispatch`].

use vstd::prelude::*;
use vstd::string::StringExecFns;

use crate::cold::CliCommand;
use crate::cold::strings_model;
use crate::error::BackendError;
use crate::error::ErrorKind;
use crate::methods::MethodInfo;
use crate::methods::MethodInfoModel;
use crate::methods::ParamInfo;
use crate::methods::ParamInfoModel;
use crate::methods::apply_defaults;
use crate::methods::find_method;
use crate::methods::first_missing_required;
use crate::methods::lemma_apply_defaults_preserves;
use crate::methods::lemma_missing_is_omitted;
use crate::methods::lemma_no_missing_required;
use crate::methods::lemma_spec_find_present;
use crate::methods::spec_apply_defaults;
use crate::methods::spec_find;
use crate::methods::spec_missing_required;
use crate::methods::str_eq;
use crate::methods::table_model;
use crate::numeric::dec_of;
use crate::numeric::u64_to_dec;
use crate::params::RequestParams;
use crate::value::Value;
use crate::value::ValueModel;

verus! {

/// The health of one subsystem: liveness, an optional probe latency and an
/// optional human-readable message.
pub struct HealthStatus {
    pub ok: bool,
    pub latency_ms: Option<u64>,
    pub message: Option<String>,
}

/// The fixed method table of the Gmail service.
pub open spec fn gmail_method_table() -> Seq<MethodInfoModel> {
    seq![
        MethodInfoModel {
            name: "inbox"@,
            description: "List recent inbox emails"@,
            params: seq![
                ParamInfoModel {
                    name: "limit"@,
                    param_type: "integer"@,
                    required: false,
                    default: Some(ValueModel::Int(10)),
                },
            ],
        },
        MethodInfoModel {
            name: "unread"@,
            description: "Get unread email count and summaries"@,
            params: Seq::<ParamInfoModel>::empty(),
        },
        MethodInfoModel {
            name: "search"@,
            description: "Search emails by query"@,
            params: seq![
                ParamInfoModel {
                    name: "query"@,
                    param_type: "string"@,
                    required: true,
                    default: None,
                },
                ParamInfoModel {
                    name: "limit"@,
                    param_type: "integer"@,
                    required: false,
                    default: Some(ValueModel::Int(10)),
                },
            ],
        },
        MethodInfoModel {
            name: "send"@,
            description: "Send an email"@,
            params: seq![
                ParamInfoModel {
                    name: "to"@,
                    param_type: "string"@,
                    required: true,
                    default: None,
                },
                ParamInfoModel {
                    name: "subject"@,
                    param_type: "string"@,
                    required: true,
                    default: None,
                },
                ParamInfoModel {
                    name: "body"@,
                    param_type: "string"@,
                    required: true,
                    default: None,
                },
            ],
        },
        MethodInfoModel {
            name: "thread"@,
            description: "Get email thread by ID"@,
            params: seq![
                ParamInfoModel {
                    name: "thread_id"@,
                    param_type: "string"@,
                    required: true,
                    default: None,
                },
            ],
        },
    ]
}

/// The five method names denote five distinct texts.
proof fn lemma_method_names_distinct()
    ensures
        "inbox"@ != "unread"@,
        "inbox"@ != "search"@,
        "inbox"@ != "send"@,
        "inbox"@ != "thread"@,
        "unread"@ != "search"@,
        "unread"@ != "send"@,
        "unread"@ != "thread"@,
        "search"@ != "send"@,
        "search"@ != "thread"@,
        "send"@ != "thread"@,
{
    reveal_strlit("inbox");
    reveal_strlit("unread");
    reveal_strlit("search");
    reveal_strlit("send");
    reveal_strlit("thread");
    assert("inbox"@.len() == 5);
    assert("unread"@.len() == 6);
    assert("search"@.len() == 6);
    assert("send"@.len() == 4);
    assert("thread"@.len() == 6);
    assert("unread"@[0] == 'u');
    assert("search"@[0] == 's');
    assert("thread"@[0] == 't');
}

/// The string a request binds to a parameter, if it binds a string.
pub open spec fn spec_str_param(m: Map<Seq<char>, ValueModel>, k: Seq<char>) -> Option<Seq<char>> {
    if m.contains_key(k) {
        match m[k] {
            ValueModel::Str(s) => Some(s),
            _ => None,
        }
    } else {
        None
    }
}

/// The effective `limit` of a request: the bound non-negative integer, ten
/// otherwise.
pub open spec fn spec_limit(m: Map<Seq<char>, ValueModel>) -> nat {
    if m.contains_key("limit"@) {
        match m["limit"@] {
            ValueModel::Int(i) => if 0 <= i {
                i as nat
            } else {
                10
            },
            _ => 10,
        }
    } else {
        10
    }
}

/// The ordered positional arguments a method hands the backend script,
/// computed from the defaulted request; or the error its own re-check of
/// the required parameters raises when one is not bound to a string.
pub open spec fn spec_args(method: Seq<char>, m: Map<Seq<char>, ValueModel>) -> Result<
    Seq<Seq<char>>,
    (ErrorKind, Seq<char>),
> {
    if method == "inbox"@ {
        Ok(seq!["inbox"@, "--limit"@, dec_of(spec_limit(m))])
    } else if method == "unread"@ {
        Ok(seq!["unread"@])
    } else if method == "search"@ {
        match spec_str_param(m, "query"@) {
            Some(q) => Ok(seq!["search"@, q, "--limit"@, dec_of(spec_limit(m))]),
            None => Err((ErrorKind::MissingRequiredParam, "query"@)),
        }
    } else if method == "send"@ {
        match spec_str_param(m, "to"@) {
            Some(to) => match spec_str_param(m, "subject"@) {
                Some(subject) => match spec_str_param(m, "body"@) {
                    Some(body) => Ok(seq!["send"@, to, subject, body]),
                    None => Err((ErrorKind::MissingRequiredParam, "body"@)),
                },
                None => Err((ErrorKind::MissingRequiredParam, "subject"@)),
            },
            None => Err((ErrorKind::MissingRequiredParam, "to"@)),
        }
    } else if method == "thread"@ {
        match spec_str_param(m, "thread_id"@) {
            Some(id) => Ok(seq!["thread"@, id]),
            None => Err((ErrorKind::MissingRequiredParam, "thread_id"@)),
        }
    } else {
        Err((ErrorKind::UnknownMethod, method))
    }
}

/// What dispatching a request comes to: the backend command's arguments, or
/// the structured error the request is rejected with. An unknown method and
/// an omitted required parameter are rejected before the arguments are ever
/// computed, so no backend command exists for them.
pub open spec fn spec_dispatch(method: Seq<char>, params: Map<Seq<char>, ValueModel>) -> Result<
    Seq<Seq<char>>,
    (ErrorKind, Seq<char>),
> {
    match spec_find(gmail_method_table(), method) {
        None => Err((ErrorKind::UnknownMethod, method)),
        Some(mi) => match spec_missing_required(mi.params, params) {
            Some(p) => Err((ErrorKind::MissingRequiredParam, p)),
            None => spec_args(method, spec_apply_defaults(mi.params, params)),
        },
    }
}

/// Whether an executed call matches its specified outcome: a command whose
/// arguments are the specified ones, or an error of the specified kind
/// carrying the specified message.
pub open spec fn call_matches(
    r: Result<CliCommand, BackendError>,
    s: Result<Seq<Seq<char>>, (ErrorKind, Seq<char>)>,
) -> bool {
    match r {
        Ok(cmd) => s == Ok::<Seq<Seq<char>>, (ErrorKind, Seq<char>)>(strings_model(cmd.args@)),
        Err(e) => s == Err::<Seq<Seq<char>>, (ErrorKind, Seq<char>)>((e.kind, e.message@)),
    }
}

/// The method description of `inbox`.
fn method_info_inbox() -> (r: MethodInfo)
    ensures
        r@ == gmail_method_table()[0],
{
    let mut ps: Vec<ParamInfo> = Vec::new();
    ps.push(
        ParamInfo {
            name: "limit".to_owned(),
            param_type: "integer".to_owned(),
            required: false,
            default: Some(Value::Int(10)),
        },
    );
    let r = MethodInfo {
        name: "inbox".to_owned(),
        description: "List recent inbox emails".to_owned(),
        params: ps,
    };
    proof {
        assert(r@.params =~= gmail_method_table()[0].params);
    }
    r
}

/// The method description of `unread`.
fn method_info_unread() -> (r: MethodInfo)
    ensures
        r@ == gmail_method_table()[1],
{
    let r = MethodInfo {
        name: "unread".to_owned(),
        description: "Get unread email count and summaries".to_owned(),
        params: Vec::new(),
    };
    proof {
        assert(r@.params =~= gmail_method_table()[1].params);
    }
    r
}

/// The method description of `search`.
fn method_info_search() -> (r: MethodInfo)
    ensures
        r@ == gmail_method_table()[2],
{
    let mut ps: Vec<ParamInfo> = Vec::new();
    ps.push(
        ParamInfo {
            name: "query".to_owned(),
            param_type: "string".to_owned(),
            required: true,
            default: None,
        },
    );
    ps.push(
        ParamInfo {
            name: "limit".to_owned(),
            param_type: "integer".to_owned(),
            required: false,
            default: Some(Value::Int(10)),
        },
    );
    let r = MethodInfo {
        name: "search".to_owned(),
        description: "Search emails by query".to_owned(),
        params: ps,
    };
    proof {
        assert(r@.params =~= gmail_method_table()[2].params);
    }
    r
}

/// The method description of `send`.
fn method_info_send() -> (r: MethodInfo)
    ensures
        r@ == gmail_method_table()[3],
{
    let mut ps: Vec<ParamInfo> = Vec::new();
    ps.push(
        ParamInfo {
            name: "to".to_owned(),
            param_type: "string".to_owned(),
            required: true,
            default: None,
        },
    );
    ps.push(
        ParamInfo {
            name: "subject".to_owned(),
            param_type: "string".to_owned(),
            required: true,
            default: None,
        },
    );
    ps.push(
        ParamInfo {
            name: "body".to_owned(),
            param_type: "string".to_owned(),
            required: true,
            default: None,
        },
    );
    let r = MethodInfo {
        name: "send".to_owned(),
        description: "Send an email".to_owned(),
        params: ps,
    };
    proof {
        assert(r@.params =~= gmail_method_table()[3].params);
    }
    r
}

/// The method description of `thread`.
fn method_info_thread() -> (r: MethodInfo)
    ensures
        r@ == gmail_method_table()[4],
{
    let mut ps: Vec<ParamInfo> = Vec::new();
    ps.push(
        ParamInfo {
            name: "thread_id".to_owned(),
            param_type: "string".to_owned(),
            required: true,
            default: None,
        },
    );
    let r = MethodInfo {
        name: "thread".to_owned(),
        description: "Get email thread by ID".to_owned(),
        params: ps,
    };
    proof {
        assert(r@.params =~= gmail_method_table()[4].params);
    }
    r
}

/// Build the service's method table.
pub fn build_method_table() -> (r: Vec<MethodInfo>)
    ensures
        table_model(r@) == gmail_method_table(),
{
    let mut r: Vec<MethodInfo> = Vec::new();
    r.push(method_info_inbox());
    r.push(method_info_unread());
    r.push(method_info_search());
    r.push(method_info_send());
    r.push(method_info_thread());
    proof {
        assert(table_model(r@) =~= gmail_method_table());
    }
    r
}

/// The Gmail service: the path of the backend script and the method table,
/// both fixed at construction.
#[derive(Debug)]
pub struct GmailService {
    cli_path: String,
    methods: Vec<MethodInfo>,
}

impl GmailService {
    /// The method table is the service's fixed one.
    pub closed spec fn wf(&self) -> bool {
        table_model(self.methods@) == gmail_method_table()
    }

    /// The path of the backend script.
    pub closed spec fn cli_path_model(&self) -> Seq<char> {
        self.cli_path@
    }

    /// Construct the service around a backend script already located.
    ///
    /// `cli_exists` reports whether the script is present at `cli_path`;
    /// a missing script makes the whole daemon startup fail.
    pub fn new(cli_path: String, cli_exists: bool) -> (r: Result<GmailService, BackendError>)
        ensures
            cli_exists ==> (r matches Ok(s) && s.wf() && s.cli_path_model() == cli_path@),
            !cli_exists ==> (r matches Err(e) && e.kind == ErrorKind::BackendUnavailable
                && e.message@ == "Gmail CLI not found at: "@ + cli_path@),
    {
        if cli_exists {
            Ok(GmailService { cli_path, methods: build_method_table() })
        } else {
            Err(
                BackendError::new(
                    ErrorKind::BackendUnavailable,
                    "Gmail CLI not found at: ".to_owned().concat(cli_path.as_str()),
                ),
            )
        }
    }

    /// The service's name.
    pub fn name(&self) -> (r: &'static str)
        ensures
            r@ == "gmail"@,
    {
        "gmail"
    }

    /// The service's version.
    pub fn version(&self) -> (r: &'static str)
        ensures
            r@ == "1.0.0"@,
    {
        "1.0.0"
    }

    /// The path of the backend script.
    pub fn cli_path(&self) -> (r: &String)
        ensures
            r@ == self.cli_path_model(),
    {
        &self.cli_path
    }

    /// The method catalog, for external introspection.
    ///
    /// Every call returns the service's fixed table, so repeated calls
    /// agree, and the catalog names exactly the methods dispatch accepts.
    pub fn method_list(&self) -> (r: Vec<MethodInfo>)
        ensures
            table_model(r@) == gmail_method_table(),
    {
        build_method_table()
    }

    /// Decide startup given the liveness probe of the backend runtime.
    ///
    /// A missing runtime fails the whole daemon startup: better than
    /// accepting requests that will always fail.
    pub fn on_start(&self, python_available: bool) -> (r: Result<(), BackendError>)
        ensures
            r is Ok <==> python_available,
            !python_available ==> (r matches Err(e) && e.kind == ErrorKind::BackendUnavailable
                && e.message@ == "Python3 not available"@),
    {
        if python_available {
            Ok(())
        } else {
            Err(
                BackendError::new(
                    ErrorKind::BackendUnavailable,
                    "Python3 not available".to_owned(),
                ),
            )
        }
    }

    /// The health of the service's subsystems, given the probe of the
    /// backend script's presence. Computed on demand; mutates nothing.
    pub fn health_check(&self, cli_present: bool) -> (r: Vec<(String, HealthStatus)>)
        ensures
            r@.len() == 1,
            r@[0].0@ == "gmail_cli"@,
            r@[0].1.ok == cli_present,
            r@[0].1.latency_ms is None,
            cli_present ==> (r@[0].1.message matches Some(m) && m@ == "CLI at "@
                + self.cli_path_model()),
            !cli_present ==> (r@[0].1.message matches Some(m) && m@
                == "gmail-cli.py not found"@),
    {
        let mut r: Vec<(String, HealthStatus)> = Vec::new();
        if cli_present {
            r.push(
                (
                    "gmail_cli".to_owned(),
                    HealthStatus {
                        ok: true,
                        latency_ms: None,
                        message: Some("CLI at ".to_owned().concat(self.cli_path.as_str())),
                    },
                ),
            );
        } else {
            r.push(
                (
                    "gmail_cli".to_owned(),
                    HealthStatus {
                        ok: false,
                        latency_ms: None,
                        message: Some("gmail-cli.py not found".to_owned()),
                    },
                ),
            );
        }
        r
    }

    /// Dispatch one request: look the method up, validate and default its
    /// parameters, and fix the backend command — or reject the request with
    /// a structured error, before any backend is touched.
    pub fn dispatch(&self, method: &str, params: RequestParams) -> (r: Result<
        CliCommand,
        BackendError,
    >)
        requires
            self.wf(),
            params.wf(),
        ensures
            call_matches(r, spec_dispatch(method@, params@)),
    {
        match find_method(&self.methods, method) {
            None => Err(BackendError::new(ErrorKind::UnknownMethod, method.to_owned())),
            Some(mi) => {
                match first_missing_required(mi, &params) {
                    Some(p) => Err(BackendError::new(ErrorKind::MissingRequiredParam, p)),
                    None => {
                        let mut defaulted = params;
                        apply_defaults(mi, &mut defaulted);
                        if str_eq(method, "inbox") {
                            self.inbox(&defaulted)
                        } else if str_eq(method, "unread") {
                            self.unread(&defaulted)
                        } else if str_eq(method, "search") {
                            self.search(&defaulted)
                        } else if str_eq(method, "send") {
                            self.send(&defaulted)
                        } else {
                            proof {
                                lemma_spec_find_present(gmail_method_table(), method@);
                                let i = choose|i: int|
                                    0 <= i < gmail_method_table().len()
                                        && gmail_method_table()[i].name == method@;
                                assert(method@ == "thread"@);
                            }
                            self.thread(&defaulted)
                        }
                    },
                }
            },
        }
    }

    /// The `inbox` call: list recent inbox emails, at most `limit` of them.
    fn inbox(&self, params: &RequestParams) -> (r: Result<CliCommand, BackendError>)
        requires
            params.wf(),
        ensures
            call_matches(r, spec_args("inbox"@, params@)),
    {
        let limit = limit_of(params);
        let mut args: Vec<String> = Vec::new();
        args.push("inbox".to_owned());
        args.push("--limit".to_owned());
        args.push(u64_to_dec(limit));
        proof {
            assert(strings_model(args@) =~= seq!["inbox"@, "--limit"@, dec_of(spec_limit(params@))]);
        }
        Ok(CliCommand { args })
    }

    /// The `unread` call: the unread count and summaries.
    fn unread(&self, params: &RequestParams) -> (r: Result<CliCommand, BackendError>)
        requires
            params.wf(),
        ensures
            call_matches(r, spec_args("unread"@, params@)),
    {
        proof {
            lemma_method_names_distinct();
        }
        let mut args: Vec<String> = Vec::new();
        args.push("unread".to_owned());
        proof {
            assert(strings_model(args@) =~= seq!["unread"@]);
        }
        Ok(CliCommand { args })
    }

    /// The `search` call: search emails by `query`, at most `limit` results.
    fn search(&self, params: &RequestParams) -> (r: Result<CliCommand, BackendError>)
        requires
            params.wf(),
        ensures
            call_matches(r, spec_args("search"@, params@)),
    {
        proof {
            lemma_method_names_distinct();
        }
        let query = match str_param(params, "query") {
            Some(q) => q.clone(),
            None => {
                return Err(
                    BackendError::new(ErrorKind::MissingRequiredParam, "query".to_owned()),
                );
            },
        };
        let limit = limit_of(params);
        let mut args: Vec<String> = Vec::new();
        args.push("search".to_owned());
        args.push(query);
        args.push("--limit".to_owned());
        args.push(u64_to_dec(limit));
        proof {
            assert(strings_model(args@) =~= seq![
                "search"@,
                spec_str_param(params@, "query"@).unwrap(),
                "--limit"@,
                dec_of(spec_limit(params@)),
            ]);
        }
        Ok(CliCommand { args })
    }

    /// The `send` call: send an email to `to` with `subject` and `body`.
    fn send(&self, params: &RequestParams) -> (r: Result<CliCommand, BackendError>)
        requires
            params.wf(),
        ensures
            call_matches(r, spec_args("send"@, params@)),
    {
        proof {
            lemma_method_names_distinct();
        }
        let to = match str_param(params, "to") {
            Some(v) => v.clone(),
            None => {
                return Err(BackendError::new(ErrorKind::MissingRequiredParam, "to".to_owned()));
            },
        };
        let subject = match str_param(params, "subject") {
            Some(v) => v.clone(),
            None => {
                return Err(
                    BackendError::new(ErrorKind::MissingRequiredParam, "subject".to_owned()),
                );
            },
        };
        let body = match str_param(params, "body") {
            Some(v) => v.clone(),
            None => {
                return Err(
                    BackendError::new(ErrorKind::MissingRequiredParam, "body".to_owned()),
                );
            },
        };
        let mut args: Vec<String> = Vec::new();
        args.push("send".to_owned());
        args.push(to);
        args.push(subject);
        args.push(body);
        proof {
            assert(strings_model(args@) =~= seq![
                "send"@,
                spec_str_param(params@, "to"@).unwrap(),
                spec_str_param(params@, "subject"@).unwrap(),
                spec_str_param(params@, "body"@).unwrap(),
            ]);
        }
        Ok(CliCommand { args })
    }

    /// The `thread` call: fetch the email thread named by `thread_id`.
    fn thread(&self, params: &RequestParams) -> (r: Result<CliCommand, BackendError>)
        requires
            params.wf(),
        ensures
            call_matches(r, spec_args("thread"@, params@)),
    {
        proof {
            lemma_method_names_distinct();
        }
        let id = match str_param(params, "thread_id") {
            Some(v) => v.clone(),
            None => {
                return Err(
                    BackendError::new(ErrorKind::MissingRequiredParam, "thread_id".to_owned()),
                );
            },
        };
        let mut args: Vec<String> = Vec::new();
        args.push("thread".to_owned());
        args.push(id);
        proof {
            assert(strings_model(args@) =~= seq![
                "thread"@,
                spec_str_param(params@, "thread_id"@).unwrap(),
            ]);
        }
        Ok(CliCommand { args })
    }
}

/// A known method called with every required parameter bound to a string is
/// never rejected by validation: dispatch yields a backend command, so such
/// a call can only ever fail with a backend error — never `UnknownMethod`
/// and never `MissingRequiredParam`.
pub proof fn lemma_valid_call_accepted(
    method: Seq<char>,
    mi: MethodInfoModel,
    params: Map<Seq<char>, ValueModel>,
)
    requires
        spec_find(gmail_method_table(), method) == Some(mi),
        forall|j: int|
            0 <= j < mi.params.len() ==> ((#[trigger] mi.params[j]).required ==> params.contains_key(
                mi.params[j].name,
            ) && params[mi.params[j].name] is Str),
    ensures
        spec_dispatch(method, params) is Ok,
{
    lemma_method_names_distinct();
    lemma_spec_find_present(gmail_method_table(), method);
    lemma_no_missing_required(mi.params, params);
    let dm = spec_apply_defaults(mi.params, params);
    let i = choose|i: int|
        0 <= i < gmail_method_table().len() && #[trigger] gmail_method_table()[i] == mi;
    assert(method == gmail_method_table()[i].name);
    if i == 2 {
        assert(mi.params[0].required && mi.params[0].name == "query"@);
        lemma_apply_defaults_preserves(mi.params, params, "query"@);
        assert(spec_str_param(dm, "query"@) is Some);
    } else if i == 3 {
        lemma_apply_defaults_preserves(mi.params, params, "to"@);
        lemma_apply_defaults_preserves(mi.params, params, "subject"@);
        lemma_apply_defaults_preserves(mi.params, params, "body"@);
        assert(spec_str_param(dm, "to"@) is Some);
        assert(spec_str_param(dm, "subject"@) is Some);
        assert(spec_str_param(dm, "body"@) is Some);
    } else if i == 4 {
        lemma_apply_defaults_preserves(mi.params, params, "thread_id"@);
        assert(spec_str_param(dm, "thread_id"@) is Some);
    }
}

/// An unknown method is rejected as `UnknownMethod` carrying its name, and
/// no backend command exists for the request: the backend executor is never
/// invoked for it.
pub proof fn lemma_unknown_method_rejected(method: Seq<char>, params: Map<Seq<char>, ValueModel>)
    requires
        forall|i: int|
            0 <= i < gmail_method_table().len() ==> (#[trigger] gmail_method_table()[i]).name
                != method,
    ensures
        spec_dispatch(method, params) == Err::<Seq<Seq<char>>, (ErrorKind, Seq<char>)>(
            (ErrorKind::UnknownMethod, method),
        ),
{
    lemma_spec_find_present(gmail_method_table(), method);
}

/// A request that omits a required parameter of a known method is rejected
/// as `MissingRequiredParam` naming an omitted required parameter of that
/// method, and no backend command exists for the request.
pub proof fn lemma_missing_param_rejected(
    method: Seq<char>,
    mi: MethodInfoModel,
    params: Map<Seq<char>, ValueModel>,
    p: Seq<char>,
)
    requires
        spec_find(gmail_method_table(), method) == Some(mi),
        spec_missing_required(mi.params, params) == Some(p),
    ensures
        spec_dispatch(method, params) == Err::<Seq<Seq<char>>, (ErrorKind, Seq<char>)>(
            (ErrorKind::MissingRequiredParam, p),
        ),
        !params.contains_key(p),
        exists|j: int|
            0 <= j < mi.params.len() && (#[trigger] mi.params[j]).required && mi.params[j].name
                == p,
{
    lemma_missing_is_omitted(mi.params, params);
}

/// The catalog mirrors dispatch: a method name is in the table exactly when
/// dispatching it is never rejected as `UnknownMethod`, whatever the
/// parameters. Together with `method_list`'s contract — every call returns
/// the one fixed table — the catalog is stable and names exactly the
/// methods dispatch accepts.
pub proof fn lemma_catalog_mirrors_dispatch(method: Seq<char>, params: Map<Seq<char>, ValueModel>)
    ensures
        (exists|i: int|
            0 <= i < gmail_method_table().len() && (#[trigger] gmail_method_table()[i]).name
                == method) <==> !(spec_dispatch(method, params) matches Err(e) && e.0
            == ErrorKind::UnknownMethod),
{
    lemma_method_names_distinct();
    lemma_spec_find_present(gmail_method_table(), method);
    if spec_find(gmail_method_table(), method) is Some {
        let mi = spec_find(gmail_method_table(), method).unwrap();
        let i = choose|i: int|
            0 <= i < gmail_method_table().len() && #[trigger] gmail_method_table()[i] == mi;
        assert(method == gmail_method_table()[i].name);
        if spec_missing_required(mi.params, params) is None {
            let dm = spec_apply_defaults(mi.params, params);
            assert(!(spec_args(method, dm) matches Err(e) && e.0 == ErrorKind::UnknownMethod));
        }
    }
}

/// The string a request binds to a parameter, if it binds a string.
fn str_param<'a>(params: &'a RequestParams, key: &str) -> (r: Option<&'a String>)
    requires
        params.wf(),
    ensures
        match r {
            Some(s) => spec_str_param(params@, key@) == Some(s@),
            None => spec_str_param(params@, key@) == Option::<Seq<char>>::None,
        },
{
    match params.get(&key.to_owned()) {
        Some(v) => v.as_str(),
        None => None,
    }
}

/// The effective `limit` of a request.
fn limit_of(params: &RequestParams) -> (r: u64)
    requires
        params.wf(),
    ensures
        r as nat == spec_limit(params@),
{
    match params.get(&"limit".to_owned()) {
        Some(v) => match v.as_u64() {
            Some(n) => n,
            None => 10,
        },
        None => 10,
    }
}

} // verus!
