//! The dispatcher: one pass per invocation. The profile is checked, the
//! local configuration precheck runs, the source is classified; then the
//! caller resolves the text and the batch submits one statement at a time,
//! each outcome recorded without stopping the ones after it.

use vstd::prelude::*;

use crate::endpoint::{build_query_endpoint, url_spec, valid_ipv4, LocalConfig};
use crate::error::QueryError;
use crate::source::{classifies, classify_source, QuerySource};
use crate::split::{spec_statements, split_statements};

verus! {

/// The execution target. Only `local` is operational; `cluster` is
/// recognized by the type but unbuilt.
#[derive(Clone, Copy, Debug, PartialEq, Eq, Structural)]
pub enum Profile {
    Local,
    Cluster,
}

/// Whether a command line is addressed to this command: it answers to any
/// line that holds its name, `query`.
pub fn is_query_command(line: &str) -> (r: bool)
    ensures
        r == crate::text::contains_seq(line@, "query"@),
{
    crate::text::str_contains(line, "query")
}

/// Parses the `--profile` value: `local` and `cluster` are the recognized
/// profiles, and anything else is rejected as unsupported, carrying the
/// rejected value.
pub fn parse_profile(s: &str) -> (r: Result<Profile, QueryError>)
    ensures
        s@ == "local"@ ==> r == Ok::<Profile, QueryError>(Profile::Local),
        s@ == "cluster"@ ==> r == Ok::<Profile, QueryError>(Profile::Cluster),
        s@ != "local"@ && s@ != "cluster"@ ==> (r matches Err(e)
            && e matches QueryError::UnsupportedProfile(d) && d@ == s@),
{
    proof {
        reveal_strlit("local");
        reveal_strlit("cluster");
        assert("local"@.len() == 5);
        assert("cluster"@.len() == 7);
    }
    if crate::text::str_eq(s, "local") {
        Ok(Profile::Local)
    } else if crate::text::str_eq(s, "cluster") {
        Ok(Profile::Cluster)
    } else {
        Err(QueryError::UnsupportedProfile(s.to_owned()))
    }
}

/// The steps in front of every statement: profile check, then the local
/// configuration precheck, then source classification. An unsupported
/// profile, the unbuilt cluster profile, and an empty configuration list
/// each abort the invocation here, before any statement exists; in
/// particular, with zero local configurations nothing is ever submitted.
pub fn plan_query(
    profile: &str,
    configs: &Vec<LocalConfig>,
    arg: Option<&String>,
    arg_is_existing_file: bool,
) -> (r: Result<QuerySource, QueryError>)
    ensures
        profile@ != "local"@ && profile@ != "cluster"@ ==> (r matches Err(e)
            && e matches QueryError::UnsupportedProfile(d) && d@ == profile@),
        profile@ == "cluster"@ ==> (r matches Err(e) && e is NotImplemented),
        profile@ == "local"@ && configs@.len() == 0 ==> (r matches Err(e) && e is NoLocalConfig),
        profile@ == "local"@ && configs@.len() > 0 ==> (r matches Ok(src) && classifies(
            arg.deep_view(),
            arg_is_existing_file,
            src,
        )),
{
    let profile = match parse_profile(profile) {
        Ok(p) => p,
        Err(e) => {
            return Err(e);
        },
    };
    match profile {
        Profile::Cluster => Err(
            QueryError::NotImplemented(String::from_str("cluster profile execution")),
        ),
        Profile::Local => {
            if configs.len() == 0 {
                Err(QueryError::NoLocalConfig)
            } else {
                Ok(classify_source(arg, arg_is_existing_file))
            }
        },
    }
}

/// One invocation's batch: the resolved statements, the endpoint URL they
/// all go to, and how far the batch has come. The URL is derived once and
/// never re-derived mid-batch.
pub struct Batch {
    /// The submission URL, shared by every statement.
    pub url: String,
    /// The statements, in source order.
    pub statements: Vec<String>,
    /// How many statements have been submitted and recorded.
    pub next: usize,
    /// How many recorded statements succeeded.
    pub ok_count: usize,
    /// How many recorded statements failed.
    pub err_count: usize,
}

impl Batch {
    /// Every recorded statement is counted exactly once, and no statement
    /// beyond the list has been attempted.
    pub open spec fn wf(&self) -> bool {
        &&& self.next <= self.statements.len()
        &&& self.ok_count + self.err_count == self.next
    }

    /// The batch after one outcome is recorded.
    pub open spec fn recorded(self, ok: bool) -> Batch
        recommends
            self.wf(),
            self.next < self.statements.len(),
    {
        Batch {
            next: (self.next + 1) as usize,
            ok_count: if ok {
                (self.ok_count + 1) as usize
            } else {
                self.ok_count
            },
            err_count: if ok {
                self.err_count
            } else {
                (self.err_count + 1) as usize
            },
            ..self
        }
    }

    /// The statement to submit next, if any remains.
    pub fn next_statement(&self) -> (r: Option<&String>)
        ensures
            r is Some <==> self.next < self.statements.len(),
            r matches Some(s) ==> s@ == self.statements.deep_view()[self.next as int],
    {
        if self.next < self.statements.len() {
            Some(&self.statements[self.next])
        } else {
            None
        }
    }

    /// Records the outcome of the statement just submitted. Success and
    /// failure advance the batch alike: a failed statement never stops the
    /// ones after it.
    pub fn record_outcome(&mut self, ok: bool)
        requires
            old(self).wf(),
            old(self).next < old(self).statements.len(),
        ensures
            *final(self) == old(self).recorded(ok),
            final(self).wf(),
    {
        self.next = self.next + 1;
        if ok {
            self.ok_count = self.ok_count + 1;
        } else {
            self.err_count = self.err_count + 1;
        }
    }
}

/// Law: statement isolation. Whatever one statement's outcome, recording
/// it leaves the statement list and the endpoint untouched, advances the
/// batch to exactly the following statement, and adds the outcome to
/// exactly one of the two counters; a failure therefore never costs any
/// later statement its turn, and the counters always sum to the number of
/// statements attempted.
pub proof fn lemma_outcome_isolation(b: Batch, ok: bool)
    requires
        b.wf(),
        b.next < b.statements.len(),
    ensures
        b.recorded(ok).wf(),
        b.recorded(ok).statements == b.statements,
        b.recorded(ok).url == b.url,
        b.recorded(ok).next == b.next + 1,
        b.recorded(ok).ok_count + b.recorded(ok).err_count == b.ok_count + b.err_count + 1,
        ok ==> b.recorded(ok).ok_count == b.ok_count + 1,
        !ok ==> b.recorded(ok).err_count == b.err_count + 1,
{
}

/// The batch after a whole run of outcomes is recorded, first to last.
pub open spec fn run_batch(b: Batch, outcomes: Seq<bool>) -> Batch
    decreases outcomes.len(),
{
    if outcomes.len() == 0 {
        b
    } else {
        run_batch(b.recorded(outcomes[0]), outcomes.skip(1))
    }
}

/// Law: batch accounting. Recording any run of outcomes advances the
/// batch by exactly one statement per outcome, whatever mixture of
/// successes and failures the run holds, and the counters come out as the
/// number of successes and the number of failures in the run: no failure
/// ends the batch early, and no outcome is dropped or double-counted.
pub proof fn lemma_batch_accounting(b: Batch, outcomes: Seq<bool>)
    requires
        b.wf(),
        b.next + outcomes.len() <= b.statements.len(),
    ensures
        run_batch(b, outcomes).wf(),
        run_batch(b, outcomes).statements == b.statements,
        run_batch(b, outcomes).url == b.url,
        run_batch(b, outcomes).next == b.next + outcomes.len(),
        run_batch(b, outcomes).ok_count == b.ok_count + outcomes.filter(|x: bool| x).len(),
        run_batch(b, outcomes).err_count == b.err_count + outcomes.filter(|x: bool| !x).len(),
    decreases outcomes.len(),
{
    broadcast use vstd::seq_lib::group_filter_ensures;

    if outcomes.len() == 0 {
        reveal(Seq::filter);
        assert(outcomes.filter(|x: bool| x).len() == 0);
        assert(outcomes.filter(|x: bool| !x).len() == 0);
    } else {
        let stepped = b.recorded(outcomes[0]);
        lemma_batch_accounting(stepped, outcomes.skip(1));
        assert(outcomes =~= seq![outcomes[0]] + outcomes.skip(1));
        outcomes.skip(1).lemma_filter_prepend(outcomes[0], |x: bool| x);
        outcomes.skip(1).lemma_filter_prepend(outcomes[0], |x: bool| !x);
    }
}

/// The line announcing one statement's submission.
pub fn announce_line(stmt: &str, url: &str) -> (r: String)
    ensures
        r@ == "Execute query "@ + stmt@ + " on "@ + url@,
{
    let mut line = String::from_str("Execute query ");
    line.append(stmt);
    line.append(" on ");
    line.append(url);
    line
}

/// The line reporting one statement's failure.
pub fn statement_error_line(stmt: &str, err: &QueryError) -> (r: String)
    ensures
        r@ == "query "@ + stmt@ + " execution error: "@ + err.spec_message(),
{
    let mut line = String::from_str("query ");
    line.append(stmt);
    line.append(" execution error: ");
    let msg = err.message();
    line.append(msg.as_str());
    line
}

/// Builds the batch for one invocation: the statements of the resolved
/// text, in source order, and the endpoint URL derived once from the first
/// local configuration entry.
pub fn prepare_batch(text: &str, configs: &Vec<LocalConfig>) -> (r: Result<Batch, QueryError>)
    requires
        configs@.len() > 0,
    ensures
        configs@[0].tls_key@.len() > 0 && configs@[0].tls_cert@.len() > 0 ==> (r matches Err(e)
            && e is NotImplemented),
        (configs@[0].tls_key@.len() == 0 || configs@[0].tls_cert@.len() == 0) && !valid_ipv4(
            configs@[0].host@,
        ) ==> (r matches Err(e) && e is EndpointBuildError),
        (configs@[0].tls_key@.len() == 0 || configs@[0].tls_cert@.len() == 0) && valid_ipv4(
            configs@[0].host@,
        ) ==> (r matches Ok(b) && {
            &&& b.url@ == url_spec(configs@[0].host@, configs@[0].port)
            &&& b.statements.deep_view() == spec_statements(text@)
            &&& b.next == 0
            &&& b.ok_count == 0
            &&& b.err_count == 0
            &&& b.wf()
        }),
{
    let url = match build_query_endpoint(&configs[0]) {
        Ok(u) => u,
        Err(e) => {
            return Err(e);
        },
    };
    let statements = split_statements(text);
    Ok(Batch { url, statements, next: 0, ok_count: 0, err_count: 0 })
}

} // verus!
