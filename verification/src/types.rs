use vstd::prelude::*;

verus! {

/// The character of a decimal digit `d` (`0 <= d < 10`).
pub open spec fn digit_char(d: nat) -> char {
    (48 + d) as char
}

/// The decimal notation of `n`, most significant digit first, with no
/// leading zeros (zero is written `0`).
pub open spec fn decimal(n: nat) -> Seq<char>
    decreases n,
{
    if n < 10 {
        seq![digit_char(n)]
    } else {
        decimal(n / 10).push(digit_char(n % 10))
    }
}

/// The one-character text of the digit `d`.
fn digit_text(d: u64) -> (r: &'static str)
    requires
        d < 10,
    ensures
        r@ == seq![digit_char(d as nat)],
{
    proof {
        reveal_strlit("0");
        reveal_strlit("1");
        reveal_strlit("2");
        reveal_strlit("3");
        reveal_strlit("4");
        reveal_strlit("5");
        reveal_strlit("6");
        reveal_strlit("7");
        reveal_strlit("8");
        reveal_strlit("9");
    }
    if d == 0 {
        "0"
    } else if d == 1 {
        "1"
    } else if d == 2 {
        "2"
    } else if d == 3 {
        "3"
    } else if d == 4 {
        "4"
    } else if d == 5 {
        "5"
    } else if d == 6 {
        "6"
    } else if d == 7 {
        "7"
    } else if d == 8 {
        "8"
    } else {
        "9"
    }
}

/// Appends the decimal notation of `n` to `text`.
pub fn push_decimal(text: &mut String, n: u64)
    ensures
        final(text)@ == old(text)@ + decimal(n as nat),
    decreases n,
{
    if n >= 10 {
        push_decimal(text, n / 10);
    }
    text.append(digit_text(n % 10));
    assert(decimal(n as nat) == if n < 10 {
        seq![digit_char(n as nat)]
    } else {
        decimal((n / 10) as nat).push(digit_char((n % 10) as nat))
    });
}

/// The decimal notation of `n` as a new string.
pub fn decimal_string(n: u64) -> (r: String)
    ensures
        r@ == decimal(n as nat),
{
    let mut text = String::new();
    push_decimal(&mut text, n);
    assert(text@ =~= decimal(n as nat));
    text
}

} // verus!

verus! {

/// What a secret holds: its identifier, and the username, the (encrypted)
/// password and the description stored with it.
pub struct SecretView {
    pub id: usize,
    pub username: Seq<char>,
    pub password: Seq<char>,
    pub description: Seq<char>,
}

/// One stored secret.
pub struct Secret {
    id: usize,
    username: String,
    password: String,
    description: String,
}

impl View for Secret {
    type V = SecretView;

    closed spec fn view(&self) -> SecretView {
        SecretView {
            id: self.id,
            username: self.username@,
            password: self.password@,
            description: self.description@,
        }
    }
}

impl Clone for Secret {
    fn clone(&self) -> (r: Self)
        ensures
            r@ == self@,
    {
        Secret {
            id: self.id,
            username: self.username.clone(),
            password: self.password.clone(),
            description: self.description.clone(),
        }
    }
}

impl Default for Secret {
    /// The secret with identifier 0 and empty texts.
    fn default() -> (r: Self)
        ensures
            r@ == (SecretView {
                id: 0,
                username: Seq::empty(),
                password: Seq::empty(),
                description: Seq::empty(),
            }),
    {
        Secret { id: 0, username: String::new(), password: String::new(), description: String::new() }
    }
}

impl Secret {
    /// A secret made of the given parts.
    pub fn new(id: usize, username: String, password: String, description: String) -> (r: Secret)
        ensures
            r@ == (SecretView {
                id,
                username: username@,
                password: password@,
                description: description@,
            }),
    {
        Secret { id, username, password, description }
    }

    pub fn get_username(&self) -> (r: String)
        ensures
            r@ == self@.username,
    {
        self.username.clone()
    }

    pub fn get_id(&self) -> (r: usize)
        ensures
            r == self@.id,
    {
        self.id
    }

    pub fn get_password(&self) -> (r: String)
        ensures
            r@ == self@.password,
    {
        self.password.clone()
    }

    pub fn get_description(&self) -> (r: String)
        ensures
            r@ == self@.description,
    {
        self.description.clone()
    }

    /// The identifier in decimal notation.
    pub fn get_string_id(&self) -> (r: String)
        ensures
            r@ == decimal(self@.id as nat),
    {
        decimal_string(self.id as u64)
    }
}

} // verus!
