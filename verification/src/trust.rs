//! Host-identity trust verification against a store of known host keys.

use vstd::prelude::*;
use ssh2::KnownHosts;
use ssh2::Session;
use crate::error::{DeployError, DeployErrorView};
use crate::text::{contains_nul, texts};

verus! {

/// The outcome of checking a presented host key against the trust store.
#[derive(Clone, Copy, Debug, PartialEq, Eq, Structural)]
pub enum TrustVerdict {
    /// A record for the alias carries exactly the presented key.
    Match,
    /// The alias is recorded, but with a different key.
    Mismatch,
    /// The store holds no record for the alias.
    NotFound,
    /// The lookup itself could not be carried out.
    CheckFailure,
}

#[verifier::external_type_specification]
#[verifier::external_body]
pub struct ExKnownHosts(KnownHosts);

#[verifier::external_type_specification]
#[verifier::external_body]
pub struct ExSshError(ssh2::Error);

#[verifier::external_type_specification]
#[verifier::external_body]
pub struct ExSession(Session);

/// The known-hosts lines that a store has taken in, oldest first.
pub uninterp spec fn known_hosts_lines(store: KnownHosts) -> Seq<Seq<char>>;

/// The answer of the store's lookup for one host name and one raw key,
/// as a function of the lines the store has taken in.
pub uninterp spec fn known_host_lookup(lines: Seq<Seq<char>>, host: Seq<char>, key: Seq<u8>) -> TrustVerdict;

/// Whether a store takes a line of a known-hosts file in rather than
/// refusing it as malformed.
pub uninterp spec fn known_hosts_line_accepted(line: Seq<char>) -> bool;

/// Whether the store can be asked about this alias and key at all: the alias
/// must be free of NUL characters and the key must not be empty.
pub open spec fn lookup_possible(alias: Seq<char>, key: Seq<u8>) -> bool {
    !alias.contains('\0') && key.len() > 0
}

/// The verdict for a single alias.
pub open spec fn alias_verdict(lines: Seq<Seq<char>>, alias: Seq<char>, key: Seq<u8>) -> TrustVerdict {
    if lookup_possible(alias, key) {
        known_host_lookup(lines, alias, key)
    } else {
        TrustVerdict::CheckFailure
    }
}

/// Calls `ssh2::KnownHosts::check`. The result is the store's own lookup
/// answer for `host` and `key`; nothing is claimed about which answer it is.
/// The outside call aborts on a host name that holds a NUL character and
/// reads past an empty key, so both are excluded.
#[verifier::external_body]
fn lookup_known_host(store: &KnownHosts, host: &str, key: &[u8]) -> (verdict: TrustVerdict)
    requires
        lookup_possible(host@, key@),
    ensures
        verdict == known_host_lookup(known_hosts_lines(*store), host@, key@),
{
    match store.check(host, key) {
        ssh2::CheckResult::Match => TrustVerdict::Match,
        ssh2::CheckResult::Mismatch => TrustVerdict::Mismatch,
        ssh2::CheckResult::NotFound => TrustVerdict::NotFound,
        ssh2::CheckResult::Failure => TrustVerdict::CheckFailure,
    }
}

/// Calls `ssh2::Session::known_hosts`. A store that was made holds no line
/// yet; whether one is made is up to the outside call.
#[verifier::external_body]
fn new_known_hosts(session: &Session) -> (res: Result<KnownHosts, ssh2::Error>)
    ensures
        res is Ok ==> known_hosts_lines(res->Ok_0) == Seq::<Seq<char>>::empty(),
{
    session.known_hosts()
}

/// Calls `ssh2::KnownHosts::read_str` with the OpenSSH file format. Whether
/// the line is taken in depends on the line alone. A line that is taken in
/// is added behind the lines the store already holds; of a store that
/// refused a line nothing is claimed.
#[verifier::external_body]
fn read_known_hosts_line(store: &mut KnownHosts, line: &str) -> (res: Result<(), ssh2::Error>)
    ensures
        res is Ok <==> known_hosts_line_accepted(line@),
        res is Ok ==> known_hosts_lines(*final(store)) == known_hosts_lines(*old(store)).push(
            line@,
        ),
{
    store.read_str(line, ssh2::KnownHostFileKind::OpenSSH)
}

/// Whether a verdict settles the question, so that no further alias is tried.
pub open spec fn is_decisive(verdict: TrustVerdict) -> bool {
    verdict != TrustVerdict::NotFound
}

/// The verdict over several aliases, given the verdict of each in the order
/// in which the aliases are tried: the first one that is not `NotFound`, and
/// `NotFound` when there is none.
pub open spec fn first_decisive(verdicts: Seq<TrustVerdict>) -> TrustVerdict
    decreases verdicts.len(),
{
    if verdicts.len() == 0 {
        TrustVerdict::NotFound
    } else if is_decisive(verdicts[0]) {
        verdicts[0]
    } else {
        first_decisive(verdicts.drop_first())
    }
}

/// The per-alias verdicts of a store for a list of aliases and one key.
pub open spec fn alias_verdicts(lines: Seq<Seq<char>>, aliases: Seq<Seq<char>>, key: Seq<u8>) -> Seq<TrustVerdict> {
    Seq::new(aliases.len(), |i: int| alias_verdict(lines, aliases[i], key))
}

/// The characters of each alias of a list.
pub open spec fn alias_views(hosts: Seq<&str>) -> Seq<Seq<char>> {
    Seq::new(hosts.len(), |i: int| hosts[i]@)
}

/// `first_decisive` is `NotFound` on a sequence exactly when every element is.
pub proof fn lemma_first_decisive_not_found(verdicts: Seq<TrustVerdict>)
    ensures
        first_decisive(verdicts) == TrustVerdict::NotFound <==> forall|i: int|
            0 <= i < verdicts.len() ==> verdicts[i] == TrustVerdict::NotFound,
    decreases verdicts.len(),
{
    if verdicts.len() > 0 {
        let rest = verdicts.drop_first();
        lemma_first_decisive_not_found(rest);
        if !is_decisive(verdicts[0]) {
            if first_decisive(rest) == TrustVerdict::NotFound {
                assert forall|i: int| 0 <= i < verdicts.len() implies verdicts[i]
                    == TrustVerdict::NotFound by {
                    if i > 0 {
                        assert(verdicts[i] == rest[i - 1]);
                    }
                }
            } else {
                let j = choose|j: int| 0 <= j < rest.len() && rest[j] != TrustVerdict::NotFound;
                assert(verdicts[j + 1] == rest[j]);
            }
        }
    }
}

/// When the first `n` verdicts are all `NotFound` and the next one is not,
/// that next one is the overall verdict.
pub proof fn lemma_first_decisive_at(verdicts: Seq<TrustVerdict>, n: int)
    requires
        0 <= n < verdicts.len(),
        forall|j: int| 0 <= j < n ==> verdicts[j] == TrustVerdict::NotFound,
        is_decisive(verdicts[n]),
    ensures
        first_decisive(verdicts) == verdicts[n],
    decreases n,
{
    if n > 0 {
        let rest = verdicts.drop_first();
        assert forall|j: int| 0 <= j < n - 1 implies rest[j] == TrustVerdict::NotFound by {
            assert(rest[j] == verdicts[j + 1]);
        }
        assert(rest[n - 1] == verdicts[n]);
        lemma_first_decisive_at(rest, n - 1);
    }
}

/// Settles the verdict over several aliases from the verdict of each, given
/// in the order in which the aliases are tried.
pub fn decide(verdicts: &[TrustVerdict]) -> (verdict: TrustVerdict)
    ensures
        verdict == first_decisive(verdicts@),
{
    let mut i: usize = 0;
    while i < verdicts.len()
        invariant
            i <= verdicts.len(),
            forall|j: int| 0 <= j < i ==> verdicts@[j] == TrustVerdict::NotFound,
        decreases verdicts.len() - i,
    {
        let v = verdicts[i];
        if v != TrustVerdict::NotFound {
            proof {
                lemma_first_decisive_at(verdicts@, i as int);
            }
            return v;
        }
        i += 1;
    }
    proof {
        lemma_first_decisive_not_found(verdicts@);
    }
    TrustVerdict::NotFound
}

/// Asks the store about one alias. An alias or key that the store cannot be
/// asked about yields `CheckFailure`.
pub fn check_host(known_hosts: &KnownHosts, host: &str, key: &[u8]) -> (verdict: TrustVerdict)
    ensures
        verdict == alias_verdict(known_hosts_lines(*known_hosts), host@, key@),
{
    if key.len() == 0 || contains_nul(host) {
        TrustVerdict::CheckFailure
    } else {
        lookup_known_host(known_hosts, host, key)
    }
}

/// Checks the presented key against the store under each alias in turn and
/// returns the first verdict other than `NotFound`; `NotFound` if every alias
/// is unknown to the store.
pub fn check_hosts(known_hosts: &KnownHosts, hosts: &[&str], key: &[u8]) -> (verdict: TrustVerdict)
    ensures
        verdict == first_decisive(
            alias_verdicts(known_hosts_lines(*known_hosts), alias_views(hosts@), key@),
        ),
{
    let ghost all = alias_verdicts(known_hosts_lines(*known_hosts), alias_views(hosts@), key@);
    let mut i: usize = 0;
    while i < hosts.len()
        invariant
            i <= hosts.len(),
            all == alias_verdicts(known_hosts_lines(*known_hosts), alias_views(hosts@), key@),
            forall|j: int| 0 <= j < i ==> all[j] == TrustVerdict::NotFound,
        decreases hosts.len() - i,
    {
        let res = check_host(known_hosts, hosts[i], key);
        if res != TrustVerdict::NotFound {
            proof {
                lemma_first_decisive_at(all, i as int);
            }
            return res;
        }
        i += 1;
    }
    proof {
        lemma_first_decisive_not_found(all);
    }
    TrustVerdict::NotFound
}

/// Feeds the lines of a known-hosts file to a store, in order, and stops at
/// the first line the store refuses. The load succeeds exactly when the
/// store takes every line in; the store then holds the new lines behind
/// those it held before. A refused line makes the load fail with
/// `TrustCheck`.
pub fn load_known_hosts(store: &mut KnownHosts, lines: &[String]) -> (res: Result<(), DeployError>)
    ensures
        res is Ok <==> forall|i: int|
            0 <= i < lines@.len() ==> known_hosts_line_accepted(#[trigger] lines@[i]@),
        res is Ok ==> known_hosts_lines(*final(store)) == known_hosts_lines(*old(store))
            + texts(lines@),
        res is Err ==> res->Err_0@ == DeployErrorView::TrustCheck,
{
    let mut i: usize = 0;
    while i < lines.len()
        invariant
            i <= lines@.len(),
            forall|j: int| 0 <= j < i ==> known_hosts_line_accepted(#[trigger] lines@[j]@),
            known_hosts_lines(*store) == known_hosts_lines(*old(store)) + texts(
                lines@,
            ).subrange(0, i as int),
        decreases lines@.len() - i,
    {
        match read_known_hosts_line(store, lines[i].as_str()) {
            Ok(_) => {},
            Err(_) => {
                assert(!known_hosts_line_accepted(lines@[i as int]@));
                return Err(DeployError::TrustCheck);
            },
        }
        proof {
            let views = texts(lines@);
            assert(views.subrange(0, i + 1) =~= views.subrange(0, i as int).push(lines@[i as int]@));
            assert(known_hosts_lines(*store) =~= known_hosts_lines(*old(store)) + views.subrange(
                0,
                i + 1,
            ));
        }
        i += 1;
    }
    proof {
        let views = texts(lines@);
        assert(views.subrange(0, i as int) =~= views);
    }
    Ok(())
}

/// Makes a trust store on a session and fills it with the lines of a
/// known-hosts file. A store that is returned holds exactly these lines,
/// all of which it took in. A line that the store refuses makes the
/// opening fail, as does a store that cannot be made; every failure is a
/// `TrustCheck`.
pub fn open_trust_store(session: &Session, lines: &[String]) -> (res: Result<
    KnownHosts,
    DeployError,
>)
    ensures
        res is Ok ==> known_hosts_lines(res->Ok_0) == texts(lines@),
        res is Ok ==> forall|i: int|
            0 <= i < lines@.len() ==> known_hosts_line_accepted(#[trigger] lines@[i]@),
        res is Err ==> res->Err_0@ == DeployErrorView::TrustCheck,
{
    let mut store = match new_known_hosts(session) {
        Ok(store) => store,
        Err(_) => {
            return Err(DeployError::TrustCheck);
        },
    };
    match load_known_hosts(&mut store, lines) {
        Ok(_) => {
            assert(Seq::<Seq<char>>::empty() + texts(lines@) =~= texts(lines@));
            Ok(store)
        },
        Err(e) => Err(e),
    }
}

/// The overall verdict is `NotFound` or the verdict of one of the aliases.
/// In particular it is `Match` only if the store holds the presented key
/// under one of the aliases, and `Mismatch` only if it holds another key
/// under one of them.
pub proof fn law_verdict_comes_from_an_alias(lines: Seq<Seq<char>>, aliases: Seq<Seq<char>>, key: Seq<u8>)
    ensures
        ({
            let verdict = first_decisive(alias_verdicts(lines, aliases, key));
            verdict == TrustVerdict::NotFound || exists|i: int|
                0 <= i < aliases.len() && alias_verdict(lines, #[trigger] aliases[i], key)
                    == verdict
        }),
{
    let verdicts = alias_verdicts(lines, aliases, key);
    lemma_first_decisive_is_member(verdicts);
    let verdict = first_decisive(verdicts);
    if verdict != TrustVerdict::NotFound {
        let i = choose|i: int| 0 <= i < verdicts.len() && verdicts[i] == verdict;
        assert(alias_verdict(lines, aliases[i], key) == verdict);
    }
}

/// `first_decisive` yields `NotFound` or one of the given verdicts.
pub proof fn lemma_first_decisive_is_member(verdicts: Seq<TrustVerdict>)
    ensures
        first_decisive(verdicts) == TrustVerdict::NotFound || exists|i: int|
            0 <= i < verdicts.len() && verdicts[i] == first_decisive(verdicts),
    decreases verdicts.len(),
{
    if verdicts.len() > 0 && !is_decisive(verdicts[0]) {
        let rest = verdicts.drop_first();
        lemma_first_decisive_is_member(rest);
        if first_decisive(rest) != TrustVerdict::NotFound {
            let i = choose|i: int| 0 <= i < rest.len() && rest[i] == first_decisive(rest);
            assert(verdicts[i + 1] == rest[i]);
        }
    }
}

/// If the store holds the presented key under one of the aliases, and knows
/// none of the aliases tried before that one, the verdict is `Match`.
pub proof fn law_match_after_unknown_aliases(
    lines: Seq<Seq<char>>,
    aliases: Seq<Seq<char>>,
    key: Seq<u8>,
    i: int,
)
    requires
        0 <= i < aliases.len(),
        alias_verdict(lines, aliases[i], key) == TrustVerdict::Match,
        forall|j: int| 0 <= j < i ==> alias_verdict(lines, #[trigger] aliases[j], key)
            == TrustVerdict::NotFound,
    ensures
        first_decisive(alias_verdicts(lines, aliases, key)) == TrustVerdict::Match,
{
    lemma_first_decisive_at(alias_verdicts(lines, aliases, key), i);
}

/// If the store holds a key other than the presented one under one of the
/// aliases, holds the presented key under none, and every lookup before that
/// alias could be carried out, the verdict is `Mismatch`.
pub proof fn law_mismatch_without_match(
    lines: Seq<Seq<char>>,
    aliases: Seq<Seq<char>>,
    key: Seq<u8>,
    i: int,
)
    requires
        0 <= i < aliases.len(),
        alias_verdict(lines, aliases[i], key) == TrustVerdict::Mismatch,
        forall|j: int| 0 <= j < aliases.len() ==> alias_verdict(lines, #[trigger] aliases[j], key)
            != TrustVerdict::Match,
        forall|j: int| 0 <= j < i ==> alias_verdict(lines, #[trigger] aliases[j], key)
            != TrustVerdict::CheckFailure,
    ensures
        first_decisive(alias_verdicts(lines, aliases, key)) == TrustVerdict::Mismatch,
{
    let verdicts = alias_verdicts(lines, aliases, key);
    assert forall|j: int| 0 <= j <= i implies (#[trigger] verdicts[j] == TrustVerdict::NotFound
        || verdicts[j] == TrustVerdict::Mismatch) by {
        assert(verdicts[j] == alias_verdict(lines, aliases[j], key));
    }
    lemma_first_decisive_among(verdicts, i, TrustVerdict::Mismatch);
}

/// If a verdict occurs at position `n` and every earlier verdict is either
/// `NotFound` or that same verdict, it is the overall verdict.
pub proof fn lemma_first_decisive_among(verdicts: Seq<TrustVerdict>, n: int, verdict: TrustVerdict)
    requires
        0 <= n < verdicts.len(),
        is_decisive(verdict),
        verdicts[n] == verdict,
        forall|j: int| 0 <= j < n ==> (#[trigger] verdicts[j] == TrustVerdict::NotFound
            || verdicts[j] == verdict),
    ensures
        first_decisive(verdicts) == verdict,
    decreases n,
{
    if n > 0 && !is_decisive(verdicts[0]) {
        let rest = verdicts.drop_first();
        assert forall|j: int| 0 <= j < n - 1 implies (#[trigger] rest[j] == TrustVerdict::NotFound
            || rest[j] == verdict) by {
            assert(rest[j] == verdicts[j + 1]);
        }
        assert(rest[n - 1] == verdicts[n]);
        lemma_first_decisive_among(rest, n - 1, verdict);
    }
}

/// If the store knows none of the aliases, the verdict is `NotFound`; and
/// only then.
pub proof fn law_not_found_iff_all_unknown(lines: Seq<Seq<char>>, aliases: Seq<Seq<char>>, key: Seq<u8>)
    ensures
        first_decisive(alias_verdicts(lines, aliases, key)) == TrustVerdict::NotFound
            <==> forall|i: int|
            0 <= i < aliases.len() ==> alias_verdict(lines, #[trigger] aliases[i], key)
                == TrustVerdict::NotFound,
{
    let verdicts = alias_verdicts(lines, aliases, key);
    lemma_first_decisive_not_found(verdicts);
    if first_decisive(verdicts) == TrustVerdict::NotFound {
        assert forall|i: int| 0 <= i < aliases.len() implies alias_verdict(
            lines,
            #[trigger] aliases[i],
            key,
        ) == TrustVerdict::NotFound by {
            assert(verdicts[i] == TrustVerdict::NotFound);
        }
    }
}

} // verus!
