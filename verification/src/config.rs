use vstd::prelude::*;
use vstd::string::StrSliceExecFns;
use vstd::string::StringExecFns;

verus! {

/// Immutable configuration assembled once at startup and owned for the
/// whole life of the process.
pub struct Config {
    /// Address the proxy itself listens on, as a `host:port` string.
    pub listen: String,
    /// Base of every outbound location; always carries a scheme.
    pub target_host: String,
    /// Whether TLS certificate-chain and hostname checks are skipped when
    /// connecting to the target.
    pub skip_ssl_verify: bool,
}

/// Whether the text begins with the given prefix.
pub open spec fn begins_with(s: Seq<char>, prefix: Seq<char>) -> bool {
    s.len() >= prefix.len() && s.subrange(0, prefix.len() as int) == prefix
}

/// Whether a target base already carries a scheme: it begins with
/// `http://` or `https://`, the two schemes the outbound client speaks. A
/// bare host whose first letters merely happen to be `http` does not.
pub open spec fn has_scheme_prefix(s: Seq<char>) -> bool {
    begins_with(s, "http://"@) || begins_with(s, "https://"@)
}

/// A target base that already carries a scheme is kept as it is; any
/// other value gets `http://` prepended, exactly once.
pub open spec fn normalized_target(s: Seq<char>) -> Seq<char> {
    if has_scheme_prefix(s) {
        s
    } else {
        "http://"@ + s
    }
}

fn str_begins_with(s: &str, prefix: &str) -> (r: bool)
    ensures
        r == begins_with(s@, prefix@),
{
    let n = prefix.unicode_len();
    if s.unicode_len() < n {
        return false;
    }
    let mut i: usize = 0;
    while i < n
        invariant
            0 <= i <= n,
            n == prefix@.len(),
            s@.len() >= n,
            forall|j: int| 0 <= j < i ==> s@[j] == prefix@[j],
        decreases n - i,
    {
        if s.get_char(i) != prefix.get_char(i) {
            proof {
                assert(s@.subrange(0, n as int)[i as int] == s@[i as int]);
            }
            return false;
        }
        i += 1;
    }
    proof {
        assert(s@.subrange(0, n as int) =~= prefix@);
    }
    true
}

fn str_has_scheme_prefix(s: &str) -> (r: bool)
    ensures
        r == has_scheme_prefix(s@),
{
    str_begins_with(s, "http://") || str_begins_with(s, "https://")
}

impl Config {
    /// Assembles the configuration from already-parsed argument values,
    /// normalizing the target base so that it always carries a scheme.
    pub fn build(listen: String, target_host: String, skip_ssl_verify: bool) -> (r: Config)
        ensures
            r.listen == listen,
            r.target_host@ == normalized_target(target_host@),
            r.skip_ssl_verify == skip_ssl_verify,
    {
        let target_host = if str_has_scheme_prefix(target_host.as_str()) {
            target_host
        } else {
            String::from_str("http://").concat(target_host.as_str())
        };
        Config { listen, target_host, skip_ssl_verify }
    }
}

/// Every normalized target base carries a scheme: the invariant the
/// configuration promises of `target_host` before any use.
pub proof fn lemma_normalized_target_has_scheme(s: Seq<char>)
    ensures
        has_scheme_prefix(normalized_target(s)),
{
    if !has_scheme_prefix(s) {
        reveal_strlit("http://");
        assert(("http://"@ + s).subrange(0, "http://"@.len() as int) =~= "http://"@);
    }
}

/// Normalizing a target base is idempotent: a value that already carries a
/// scheme is left unchanged, so a second normalization never prepends
/// `http://` again.
pub proof fn lemma_normalized_target_idempotent(s: Seq<char>)
    ensures
        normalized_target(normalized_target(s)) == normalized_target(s),
{
    lemma_normalized_target_has_scheme(s);
}

} // verus!
