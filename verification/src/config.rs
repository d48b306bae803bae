//! The configuration of an account, and the scopes it asks for.

use crate::callback;
use crate::text;
use crate::text::{concat, starts_with};
use vstd::prelude::*;

verus! {

/// The OAuth client of an account, as it is registered with Google, and what
/// the plugin asks of it.
#[derive(Debug, Clone)]
pub struct GoogleAuthConfig {
    /// The client id of a desktop application.
    pub client_id: String,
    /// The secret that belongs to `client_id`.
    pub client_secret: String,
    /// The scopes to ask for, in full or in their short form.
    pub scopes: Vec<String>,
    /// Where the tokens are kept; relative to the workspace.
    pub token_file: String,
    /// The port of the loopback callback.
    pub redirect_port: u16,
}

/// The model of a configuration.
#[verifier::ext_equal]
pub struct ConfigModel {
    pub client_id: Seq<char>,
    pub client_secret: Seq<char>,
    pub scopes: Seq<Seq<char>>,
    pub token_file: Seq<char>,
    pub redirect_port: u16,
}

impl View for GoogleAuthConfig {
    type V = ConfigModel;

    open spec fn view(&self) -> ConfigModel {
        ConfigModel {
            client_id: self.client_id@,
            client_secret: self.client_secret@,
            scopes: text::texts(self.scopes@),
            token_file: self.token_file@,
            redirect_port: self.redirect_port,
        }
    }
}

/// The token file of an account that names none.
pub fn default_token_file() -> (r: String)
    ensures
        r@ == "google_tokens.json"@,
{
    "google_tokens.json".to_owned()
}

/// The callback port of an account that names none.
pub fn default_redirect_port() -> (r: u16)
    ensures
        r == 8765,
{
    8765
}

/// The files that hold the client id and the client secret of an account.
#[derive(Debug, Clone)]
pub struct SecretSources {
    pub client_id_path: String,
    pub client_secret_path: String,
}

// ---------------------------------------------------------------------------
// Scopes

/// A scope that needs no expansion.
pub open spec fn qualified_scope(scope: Seq<char>) -> bool {
    "https://"@.is_prefix_of(scope) || "openid"@.is_prefix_of(scope)
}

/// The full form of a scope.
pub open spec fn canonical_scope(scope: Seq<char>) -> Seq<char> {
    if qualified_scope(scope) {
        scope
    } else {
        "https://www.googleapis.com/auth/"@ + scope
    }
}

/// The full forms of a list of scopes.
pub open spec fn canonical_scopes(scopes: Seq<Seq<char>>) -> Seq<Seq<char>> {
    Seq::new(scopes.len(), |i: int| canonical_scope(scopes[i]))
}

/// Expands the short forms among `input` (`gmail.readonly`) and leaves the
/// other scopes as they are.
pub fn canonicalize_scopes(input: &[String]) -> (r: Vec<String>)
    ensures
        text::texts(r@) == canonical_scopes(text::texts(input@)),
{
    let mut out: Vec<String> = Vec::new();
    let mut i: usize = 0;
    while i < input.len()
        invariant
            i <= input@.len(),
            out@.len() == i,
            forall|k: int| 0 <= k < i ==> out@[k]@ == canonical_scope(input@[k]@),
        decreases input@.len() - i,
    {
        let s: &str = input[i].as_str();
        if starts_with(s, "https://") || starts_with(s, "openid") {
            out.push(s.to_owned());
        } else {
            out.push(concat("https://www.googleapis.com/auth/", s));
        }
        i = i + 1;
    }
    assert(text::texts(out@) =~= canonical_scopes(text::texts(input@)));
    out
}

/// The scopes as a request names them.
pub open spec fn scope_text(scopes: Seq<Seq<char>>) -> Seq<char> {
    text::joined(canonical_scopes(scopes), " "@)
}

/// Every scope is in its full form after the expansion.
pub proof fn canonical_scopes_are_qualified(scope: Seq<char>)
    ensures
        qualified_scope(canonical_scope(scope)),
{
    reveal_strlit("https://");
    reveal_strlit("https://www.googleapis.com/auth/");
    let base = "https://www.googleapis.com/auth/"@;
    assert("https://"@ =~= (base + scope).subrange(0, 8));
}

/// To expand scopes that have been expanded changes nothing.
pub proof fn canonicalizing_is_idempotent(scopes: Seq<Seq<char>>)
    ensures
        canonical_scopes(canonical_scopes(scopes)) == canonical_scopes(scopes),
{
    assert forall|i: int| 0 <= i < scopes.len() implies canonical_scopes(
        canonical_scopes(scopes),
    )[i] == canonical_scopes(scopes)[i] by {
        canonical_scopes_are_qualified(scopes[i]);
    }
    assert(canonical_scopes(canonical_scopes(scopes)) =~= canonical_scopes(scopes));
}

/// A scope that begins with `https://` or with `openid` stays as it is; before
/// any other stands the address below which Google keeps its scopes. There are
/// as many scopes as before, in the same order.
pub proof fn short_scopes_are_expanded(scopes: Seq<Seq<char>>, i: int)
    requires
        0 <= i < scopes.len(),
    ensures
        canonical_scopes(scopes).len() == scopes.len(),
        "https://"@.is_prefix_of(scopes[i]) || "openid"@.is_prefix_of(scopes[i])
            ==> canonical_scopes(scopes)[i] == scopes[i],
        !"https://"@.is_prefix_of(scopes[i]) && !"openid"@.is_prefix_of(scopes[i])
            ==> canonical_scopes(scopes)[i] == "https://www.googleapis.com/auth/"@ + scopes[i],
{
}

/// The scopes that a request names are separated by blanks: where no scope
/// holds one, they can be told apart again.
pub proof fn requested_scopes_can_be_told_apart(scopes: Seq<Seq<char>>)
    requires
        scopes.len() > 0,
        forall|i: int| 0 <= i < scopes.len() ==> !(#[trigger] scopes[i]).contains(' '),
    ensures
        text::split_on(scope_text(scopes), ' ') == canonical_scopes(scopes),
{
    reveal_strlit(" ");
    reveal_strlit("https://www.googleapis.com/auth/");
    assert(" "@ =~= seq![' ']);
    let full = canonical_scopes(scopes);
    assert forall|i: int| 0 <= i < full.len() implies !(#[trigger] full[i]).contains(' ') by {
        short_scopes_are_expanded(scopes, i);
        assert(!scopes[i].contains(' '));
        let base = "https://www.googleapis.com/auth/"@;
        assert forall|k: int| 0 <= k < full[i].len() implies full[i][k] != ' ' by {
            if full[i] == scopes[i] {
                assert(scopes[i].contains(scopes[i][k]));
            } else if k >= base.len() {
                assert(full[i][k] == scopes[i][k - base.len()]);
                assert(scopes[i].contains(scopes[i][k - base.len()]));
            }
        }
    }
    callback::splitting_undoes_joining(full, ' ');
}

/// The model of a configuration shows every part of it.
pub proof fn configurations_are_modelled_part_for_part(c: GoogleAuthConfig)
    ensures
        c@.client_id == c.client_id@,
        c@.client_secret == c.client_secret@,
        c@.scopes.len() == c.scopes@.len(),
        forall|i: int| 0 <= i < c.scopes@.len() ==> #[trigger] c@.scopes[i] == c.scopes@[i]@,
        c@.token_file == c.token_file@,
        c@.redirect_port == c.redirect_port,
{
}

} // verus!
