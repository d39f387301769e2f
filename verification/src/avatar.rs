//! Deriving the author's effective display avatar as a canonical image
//! URL.
//!
//! The derivation is a pure function of the identity fields: the
//! per-server member avatar hash is preferred over the account-level
//! avatar hash, which is preferred over the platform default. The caller
//! may override the result by filling the `url` field.

use vstd::prelude::*;

verus! {

/// Fields the author's display avatar URL is derived from.
#[derive(Debug, Clone, PartialEq, Eq)]
pub struct Info {
    /// Override or cached URL; when set, it is used as is.
    pub url: Option<String>,
    /// ID of the author's account.
    pub user_id: u64,
    /// ID of the server the message was in.
    pub guild_id: u64,
    /// The author's legacy discriminator; zero on accounts without one.
    pub user_discriminator: u16,
    /// Account-level avatar hash, when one is set.
    pub user_avatar: Option<String>,
    /// Per-server member avatar hash, when one is set.
    pub member_avatar: Option<String>,
}

/// The decimal digit character for `n`.
pub open spec fn dec_digit(n: nat) -> char {
    if n == 0 {
        '0'
    } else if n == 1 {
        '1'
    } else if n == 2 {
        '2'
    } else if n == 3 {
        '3'
    } else if n == 4 {
        '4'
    } else if n == 5 {
        '5'
    } else if n == 6 {
        '6'
    } else if n == 7 {
        '7'
    } else if n == 8 {
        '8'
    } else {
        '9'
    }
}

/// The decimal representation of `n`, with no leading zeros.
pub open spec fn dec_str(n: nat) -> Seq<char>
    decreases n,
{
    if n < 10 {
        seq![dec_digit(n)]
    } else {
        dec_str(n / 10) + seq![dec_digit(n % 10)]
    }
}

impl Info {
    /// The index of the platform's default avatar for this identity:
    /// derived from the account id on accounts without a discriminator,
    /// else from the discriminator.
    pub open spec fn spec_default_index(self) -> u64 {
        if self.user_discriminator == 0 {
            (self.user_id >> 22) % 6
        } else {
            (self.user_discriminator % 5) as u64
        }
    }

    /// The derived avatar URL, ignoring any override: the member avatar
    /// when one is set, else the account avatar, else the default.
    pub open spec fn spec_derived_url(self) -> Seq<char> {
        match self.member_avatar {
            Option::Some(hash) => "https://cdn.discordapp.com/guilds/"@ + dec_str(
                self.guild_id as nat,
            ) + "/users/"@ + dec_str(self.user_id as nat) + "/avatars/"@ + hash@ + ".png"@,
            Option::None => match self.user_avatar {
                Option::Some(hash) => "https://cdn.discordapp.com/avatars/"@ + dec_str(
                    self.user_id as nat,
                ) + "/"@ + hash@ + ".png"@,
                Option::None => "https://cdn.discordapp.com/embed/avatars/"@ + dec_str(
                    self.spec_default_index() as nat,
                ) + ".png"@,
            },
        }
    }

    /// The effective avatar URL: the override when one is set, else the
    /// derived URL.
    pub open spec fn spec_url(self) -> Seq<char> {
        match self.url {
            Option::Some(u) => u@,
            Option::None => self.spec_derived_url(),
        }
    }

    /// Compute the effective avatar URL.
    pub fn url(&self) -> (r: String)
        ensures
            r@ == self.spec_url(),
    {
        match &self.url {
            Some(u) => u.clone(),
            None => {
                let mut s = String::new();
                match &self.member_avatar {
                    Some(hash) => {
                        push_str(&mut s, "https://cdn.discordapp.com/guilds/");
                        push_u64(&mut s, self.guild_id);
                        push_str(&mut s, "/users/");
                        push_u64(&mut s, self.user_id);
                        push_str(&mut s, "/avatars/");
                        push_str(&mut s, hash.as_str());
                        push_str(&mut s, ".png");
                    },
                    None => match &self.user_avatar {
                        Some(hash) => {
                            push_str(&mut s, "https://cdn.discordapp.com/avatars/");
                            push_u64(&mut s, self.user_id);
                            push_str(&mut s, "/");
                            push_str(&mut s, hash.as_str());
                            push_str(&mut s, ".png");
                        },
                        None => {
                            let index: u64 = if self.user_discriminator == 0 {
                                (self.user_id >> 22) % 6
                            } else {
                                (self.user_discriminator % 5) as u64
                            };
                            push_str(&mut s, "https://cdn.discordapp.com/embed/avatars/");
                            push_u64(&mut s, index);
                            push_str(&mut s, ".png");
                        },
                    },
                }
                proof {
                    assert(s@ =~= self.spec_derived_url());
                }
                s
            },
        }
    }

    /// Compute the effective avatar URL once and cache it in `url`, so
    /// that later reads need not re-derive it. The identity fields are
    /// untouched and the effective URL does not change.
    pub fn cache_url(&mut self)
        ensures
            final(self).url matches Some(u) && u@ == old(self).spec_url(),
            final(self).spec_url() == old(self).spec_url(),
            final(self).user_id == old(self).user_id,
            final(self).guild_id == old(self).guild_id,
            final(self).user_discriminator == old(self).user_discriminator,
            final(self).user_avatar == old(self).user_avatar,
            final(self).member_avatar == old(self).member_avatar,
    {
        let u = self.url();
        self.url = Some(u);
    }
}

/// When a member-level avatar hash is present it is selected: the derived
/// URL does not depend on the account-level hash.
pub proof fn lemma_member_avatar_precedence(a: Info, b: Info)
    requires
        a.url is None,
        b.url is None,
        a.member_avatar is Some,
        b == (Info { user_avatar: b.user_avatar, ..a }),
    ensures
        a.spec_url() == b.spec_url(),
{
}

/// With neither avatar hash present, the default is deterministic: it
/// depends only on the account id and discriminator.
pub proof fn lemma_default_avatar_deterministic(a: Info, b: Info)
    requires
        a.url is None,
        b.url is None,
        a.member_avatar is None,
        a.user_avatar is None,
        b.member_avatar is None,
        b.user_avatar is None,
        a.user_id == b.user_id,
        a.user_discriminator == b.user_discriminator,
    ensures
        a.spec_url() == b.spec_url(),
{
}

/// Relies on std's `String::push_str`: appends the slice's characters.
#[verifier::external_body]
fn push_str(s: &mut String, t: &str)
    ensures
        final(s)@ == old(s)@ + t@,
{
    s.push_str(t)
}

/// Relies on std's `String::push`: appends the character.
#[verifier::external_body]
fn push_char(s: &mut String, c: char)
    ensures
        final(s)@ == old(s)@.push(c),
{
    s.push(c)
}

fn digit_char(d: u8) -> (c: char)
    requires
        d < 10,
    ensures
        c == dec_digit(d as nat),
{
    if d == 0 {
        '0'
    } else if d == 1 {
        '1'
    } else if d == 2 {
        '2'
    } else if d == 3 {
        '3'
    } else if d == 4 {
        '4'
    } else if d == 5 {
        '5'
    } else if d == 6 {
        '6'
    } else if d == 7 {
        '7'
    } else if d == 8 {
        '8'
    } else {
        '9'
    }
}

/// Append the decimal representation of `n`.
fn push_u64(s: &mut String, n: u64)
    ensures
        final(s)@ == old(s)@ + dec_str(n as nat),
    decreases n,
{
    if n >= 10 {
        let q = n / 10;
        proof {
            assert(q < n) by (nonlinear_arith)
                requires
                    n >= 10,
                    q == n as int / 10,
            ;
        }
        push_u64(s, q);
        push_char(s, digit_char((n % 10) as u8));
        proof {
            assert(s@ =~= old(s)@ + dec_str(n as nat));
        }
    } else {
        push_char(s, digit_char(n as u8));
        proof {
            assert(s@ =~= old(s)@ + dec_str(n as nat));
        }
    }
}

} // verus!
