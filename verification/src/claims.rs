use vstd::prelude::*;
use crate::models::{opt_view, ClaimsView, JwtClaims};
use crate::text::{join, same_text};

verus! {

/// Why a token was not issued or not accepted.
#[derive(Debug)]
pub enum TokenFault {
    /// The token has not the shape of a signed token.
    InvalidToken,
    /// The signature is not that of the token's content.
    InvalidSignature,
    /// The token names another algorithm than the one agreed on.
    InvalidAlgorithm,
    /// The token has expired.
    ExpiredSignature,
    /// A claim that every token carries is absent.
    MissingClaim(String),
    /// A claim holds a value of the wrong kind.
    InvalidClaim(String),
    /// The claims are no well-formed document.
    Json(String),
    /// Any other failure, by its message.
    Other(String),
}

/// A fault as plain mathematical values.
pub enum FaultView {
    InvalidToken,
    InvalidSignature,
    InvalidAlgorithm,
    ExpiredSignature,
    MissingClaim(Seq<char>),
    InvalidClaim(Seq<char>),
    Json(Seq<char>),
    Other(Seq<char>),
}

impl View for TokenFault {
    type V = FaultView;

    open spec fn view(&self) -> FaultView {
        match self {
            TokenFault::InvalidToken => FaultView::InvalidToken,
            TokenFault::InvalidSignature => FaultView::InvalidSignature,
            TokenFault::InvalidAlgorithm => FaultView::InvalidAlgorithm,
            TokenFault::ExpiredSignature => FaultView::ExpiredSignature,
            TokenFault::MissingClaim(name) => FaultView::MissingClaim(name@),
            TokenFault::InvalidClaim(name) => FaultView::InvalidClaim(name@),
            TokenFault::Json(message) => FaultView::Json(message@),
            TokenFault::Other(message) => FaultView::Other(message@),
        }
    }
}

impl FaultView {
    /// The fault in words.
    pub open spec fn message(self) -> Seq<char> {
        match self {
            FaultView::InvalidToken => "InvalidToken"@,
            FaultView::InvalidSignature => "InvalidSignature"@,
            FaultView::InvalidAlgorithm => "InvalidAlgorithm"@,
            FaultView::ExpiredSignature => "ExpiredSignature"@,
            FaultView::MissingClaim(name) => "Missing required claim: "@ + name,
            FaultView::InvalidClaim(name) => "Invalid claim: "@ + name,
            FaultView::Json(message) => "JSON error: "@ + message,
            FaultView::Other(message) => message,
        }
    }
}

impl TokenFault {
    /// The fault in words.
    pub fn message(&self) -> (text: String)
        ensures
            text@ == self@.message(),
    {
        match self {
            TokenFault::InvalidToken => "InvalidToken".to_owned(),
            TokenFault::InvalidSignature => "InvalidSignature".to_owned(),
            TokenFault::InvalidAlgorithm => "InvalidAlgorithm".to_owned(),
            TokenFault::ExpiredSignature => "ExpiredSignature".to_owned(),
            TokenFault::MissingClaim(name) => join("Missing required claim: ", name.as_str()),
            TokenFault::InvalidClaim(name) => join("Invalid claim: ", name.as_str()),
            TokenFault::Json(message) => join("JSON error: ", message.as_str()),
            TokenFault::Other(message) => message.clone(),
        }
    }
}

/// The value of one claim of a token.
#[derive(Debug)]
pub enum ClaimValue {
    /// The claim is present and empty.
    Null,
    /// A text.
    Text(String),
    /// A whole number.
    Integer(i64),
    /// A value of any other kind.
    Other,
}

/// The value of a claim as a plain mathematical value.
pub enum ClaimValueView {
    Null,
    Text(Seq<char>),
    Integer(int),
    Other,
}

impl View for ClaimValue {
    type V = ClaimValueView;

    open spec fn view(&self) -> ClaimValueView {
        match self {
            ClaimValue::Null => ClaimValueView::Null,
            ClaimValue::Text(text) => ClaimValueView::Text(text@),
            ClaimValue::Integer(number) => ClaimValueView::Integer(*number as int),
            ClaimValue::Other => ClaimValueView::Other,
        }
    }
}

/// The claims that a list of named values stands for: each name has the
/// value of its last entry.
pub open spec fn claim_map(fields: Seq<(String, ClaimValue)>) -> Map<Seq<char>, ClaimValueView>
    decreases fields.len(),
{
    if fields.len() == 0 {
        Map::empty()
    } else {
        claim_map(fields.drop_last()).insert(fields.last().0@, fields.last().1@)
    }
}

/// A name is a claim of a list exactly if an entry bears it.
pub proof fn lemma_claim_present(fields: Seq<(String, ClaimValue)>, name: Seq<char>)
    ensures
        claim_map(fields).contains_key(name) <==> exists|i: int|
            0 <= i < fields.len() && (#[trigger] fields[i]).0@ == name,
    decreases fields.len(),
{
    if fields.len() > 0 {
        let shorter = fields.drop_last();
        lemma_claim_present(shorter, name);
        if fields.last().0@ == name {
            assert(fields[fields.len() - 1].0@ == name);
        } else if claim_map(shorter).contains_key(name) {
            let i = choose|i: int| 0 <= i < shorter.len() && (#[trigger] shorter[i]).0@ == name;
            assert(fields[i].0@ == name);
        } else if exists|i: int| 0 <= i < fields.len() && (#[trigger] fields[i]).0@ == name {
            let i = choose|i: int| 0 <= i < fields.len() && (#[trigger] fields[i]).0@ == name;
            assert(shorter[i].0@ == name);
        }
    }
}

/// An entry behind which no other bears its name gives the value of the
/// claim of that name.
pub proof fn lemma_claim_value(fields: Seq<(String, ClaimValue)>, name: Seq<char>, i: int)
    requires
        0 <= i < fields.len(),
        fields[i].0@ == name,
        forall|j: int| i < j < fields.len() ==> (#[trigger] fields[j]).0@ != name,
    ensures
        claim_map(fields).contains_key(name),
        claim_map(fields)[name] == fields[i].1@,
    decreases fields.len(),
{
    if i < fields.len() - 1 {
        let shorter = fields.drop_last();
        assert(fields[fields.len() - 1].0@ != name);
        assert(shorter[i] == fields[i]);
        assert forall|j: int| i < j < shorter.len() implies (#[trigger] shorter[j]).0@ != name by {
            assert(shorter[j] == fields[j]);
        }
        lemma_claim_value(shorter, name, i);
    }
}

/// The value of the claim `name`, if the list has it.
pub fn find_claim<'a>(fields: &'a Vec<(String, ClaimValue)>, name: &str) -> (found: Option<
    &'a ClaimValue,
>)
    ensures
        match found {
            Some(value) => claim_map(fields@).contains_key(name@) && claim_map(fields@)[name@]
                == value@,
            None => !claim_map(fields@).contains_key(name@),
        },
{
    let mut i: usize = fields.len();
    while i > 0
        invariant
            i <= fields.len(),
            forall|j: int| i <= j < fields.len() ==> (#[trigger] fields@[j]).0@ != name@,
        decreases i,
    {
        i = i - 1;
        if same_text(fields[i].0.as_str(), name) {
            proof {
                lemma_claim_value(fields@, name@, i as int);
            }
            return Some(&fields[i].1);
        }
    }
    proof {
        lemma_claim_present(fields@, name@);
    }
    None
}

/// The text of the claim `name`, which has to be there.
pub open spec fn text_claim(claims: Map<Seq<char>, ClaimValueView>, name: Seq<char>) -> Result<
    Seq<char>,
    FaultView,
> {
    if !claims.contains_key(name) {
        Err(FaultView::MissingClaim(name))
    } else {
        match claims[name] {
            ClaimValueView::Text(text) => Ok(text),
            _ => Err(FaultView::InvalidClaim(name)),
        }
    }
}

/// The text of the claim `name`, which may be absent or empty.
pub open spec fn optional_text_claim(
    claims: Map<Seq<char>, ClaimValueView>,
    name: Seq<char>,
) -> Result<Option<Seq<char>>, FaultView> {
    if !claims.contains_key(name) {
        Ok(None)
    } else {
        match claims[name] {
            ClaimValueView::Null => Ok(None),
            ClaimValueView::Text(text) => Ok(Some(text)),
            _ => Err(FaultView::InvalidClaim(name)),
        }
    }
}

/// The number of the claim `name`, which has to be there.
pub open spec fn integer_claim(claims: Map<Seq<char>, ClaimValueView>, name: Seq<char>) -> Result<
    int,
    FaultView,
> {
    if !claims.contains_key(name) {
        Err(FaultView::MissingClaim(name))
    } else {
        match claims[name] {
            ClaimValueView::Integer(number) => Ok(number),
            _ => Err(FaultView::InvalidClaim(name)),
        }
    }
}

/// The first fault among the claims of a token, taken in the order
/// subject, name, email, tier, provider, issue, expiry, identifier.
pub open spec fn first_fault(claims: Map<Seq<char>, ClaimValueView>) -> Option<FaultView> {
    if text_claim(claims, "sub"@) is Err {
        Some(text_claim(claims, "sub"@)->Err_0)
    } else if optional_text_claim(claims, "name"@) is Err {
        Some(optional_text_claim(claims, "name"@)->Err_0)
    } else if optional_text_claim(claims, "email"@) is Err {
        Some(optional_text_claim(claims, "email"@)->Err_0)
    } else if text_claim(claims, "tier"@) is Err {
        Some(text_claim(claims, "tier"@)->Err_0)
    } else if text_claim(claims, "provider"@) is Err {
        Some(text_claim(claims, "provider"@)->Err_0)
    } else if integer_claim(claims, "iat"@) is Err {
        Some(integer_claim(claims, "iat"@)->Err_0)
    } else if integer_claim(claims, "exp"@) is Err {
        Some(integer_claim(claims, "exp"@)->Err_0)
    } else if text_claim(claims, "jti"@) is Err {
        Some(text_claim(claims, "jti"@)->Err_0)
    } else {
        None
    }
}

/// The claims of a token as read from its named values: the first fault
/// among them, or the claims where there is none.
pub open spec fn claims_of(claims: Map<Seq<char>, ClaimValueView>) -> Result<ClaimsView, FaultView> {
    match first_fault(claims) {
        Some(fault) => Err(fault),
        None => Ok(
            ClaimsView {
                sub: text_claim(claims, "sub"@)->Ok_0,
                name: optional_text_claim(claims, "name"@)->Ok_0,
                email: optional_text_claim(claims, "email"@)->Ok_0,
                tier: text_claim(claims, "tier"@)->Ok_0,
                provider: text_claim(claims, "provider"@)->Ok_0,
                iat: integer_claim(claims, "iat"@)->Ok_0,
                exp: integer_claim(claims, "exp"@)->Ok_0,
                jti: text_claim(claims, "jti"@)->Ok_0,
            },
        ),
    }
}

/// The named values that claims are written as.
pub open spec fn fields_of(claims: ClaimsView) -> Map<Seq<char>, ClaimValueView> {
    Map::empty().insert("sub"@, ClaimValueView::Text(claims.sub)).insert(
        "name"@,
        match claims.name {
            Some(text) => ClaimValueView::Text(text),
            None => ClaimValueView::Null,
        },
    ).insert(
        "email"@,
        match claims.email {
            Some(text) => ClaimValueView::Text(text),
            None => ClaimValueView::Null,
        },
    ).insert("tier"@, ClaimValueView::Text(claims.tier)).insert(
        "provider"@,
        ClaimValueView::Text(claims.provider),
    ).insert("iat"@, ClaimValueView::Integer(claims.iat)).insert(
        "exp"@,
        ClaimValueView::Integer(claims.exp),
    ).insert("jti"@, ClaimValueView::Text(claims.jti))
}

/// The named values of a list, as plain values.
pub open spec fn field_views(fields: Seq<(String, ClaimValue)>) -> Seq<(Seq<char>, ClaimValueView)> {
    Seq::new(fields.len(), |i: int| (fields[i].0@, fields[i].1@))
}

/// The named values that claims are written as, in the order in which the
/// claims are declared.
pub open spec fn claim_list(claims: ClaimsView) -> Seq<(Seq<char>, ClaimValueView)> {
    seq![
        ("sub"@, ClaimValueView::Text(claims.sub)),
        (
            "name"@,
            match claims.name {
                Some(text) => ClaimValueView::Text(text),
                None => ClaimValueView::Null,
            },
        ),
        (
            "email"@,
            match claims.email {
                Some(text) => ClaimValueView::Text(text),
                None => ClaimValueView::Null,
            },
        ),
        ("tier"@, ClaimValueView::Text(claims.tier)),
        ("provider"@, ClaimValueView::Text(claims.provider)),
        ("iat"@, ClaimValueView::Integer(claims.iat)),
        ("exp"@, ClaimValueView::Integer(claims.exp)),
        ("jti"@, ClaimValueView::Text(claims.jti)),
    ]
}

/// The names of the eight claims differ from one another.
pub proof fn lemma_claim_names_differ()
    ensures
        "sub"@ != "name"@,
        "sub"@ != "email"@,
        "sub"@ != "tier"@,
        "sub"@ != "provider"@,
        "sub"@ != "iat"@,
        "sub"@ != "exp"@,
        "sub"@ != "jti"@,
        "name"@ != "email"@,
        "name"@ != "tier"@,
        "name"@ != "provider"@,
        "name"@ != "iat"@,
        "name"@ != "exp"@,
        "name"@ != "jti"@,
        "email"@ != "tier"@,
        "email"@ != "provider"@,
        "email"@ != "iat"@,
        "email"@ != "exp"@,
        "email"@ != "jti"@,
        "tier"@ != "provider"@,
        "tier"@ != "iat"@,
        "tier"@ != "exp"@,
        "tier"@ != "jti"@,
        "provider"@ != "iat"@,
        "provider"@ != "exp"@,
        "provider"@ != "jti"@,
        "iat"@ != "exp"@,
        "iat"@ != "jti"@,
        "exp"@ != "jti"@,
{
    reveal_strlit("sub");
    reveal_strlit("name");
    reveal_strlit("email");
    reveal_strlit("tier");
    reveal_strlit("provider");
    reveal_strlit("iat");
    reveal_strlit("exp");
    reveal_strlit("jti");
    assert("sub"@[0] == 's' && "iat"@[0] == 'i' && "exp"@[0] == 'e' && "jti"@[0] == 'j');
    assert("name"@[0] == 'n' && "tier"@[0] == 't');
    assert("sub"@.len() == 3 && "iat"@.len() == 3 && "exp"@.len() == 3 && "jti"@.len() == 3);
    assert("name"@.len() == 4 && "tier"@.len() == 4);
    assert("email"@.len() == 5 && "provider"@.len() == 8);
}

/// Claims that are written as named values and read again are the same.
pub proof fn lemma_claims_survive_writing(claims: ClaimsView)
    ensures
        claims_of(fields_of(claims)) == Ok::<ClaimsView, FaultView>(claims),
{
    lemma_claim_names_differ();
    let written = fields_of(claims);
    assert(text_claim(written, "sub"@) == Ok::<Seq<char>, FaultView>(claims.sub));
    assert(optional_text_claim(written, "name"@) == Ok::<Option<Seq<char>>, FaultView>(
        claims.name,
    ));
    assert(optional_text_claim(written, "email"@) == Ok::<Option<Seq<char>>, FaultView>(
        claims.email,
    ));
    assert(text_claim(written, "tier"@) == Ok::<Seq<char>, FaultView>(claims.tier));
    assert(text_claim(written, "provider"@) == Ok::<Seq<char>, FaultView>(claims.provider));
    assert(integer_claim(written, "iat"@) == Ok::<int, FaultView>(claims.iat));
    assert(integer_claim(written, "exp"@) == Ok::<int, FaultView>(claims.exp));
    assert(text_claim(written, "jti"@) == Ok::<Seq<char>, FaultView>(claims.jti));
}

/// The text of the claim `name`, which has to be there.
fn read_text(fields: &Vec<(String, ClaimValue)>, name: &str) -> (read: Result<String, TokenFault>)
    ensures
        match read {
            Ok(text) => text_claim(claim_map(fields@), name@) == Ok::<Seq<char>, FaultView>(text@),
            Err(fault) => text_claim(claim_map(fields@), name@) == Err::<Seq<char>, FaultView>(
                fault@,
            ),
        },
{
    match find_claim(fields, name) {
        None => Err(TokenFault::MissingClaim(name.to_owned())),
        Some(ClaimValue::Text(text)) => Ok(text.clone()),
        Some(_) => Err(TokenFault::InvalidClaim(name.to_owned())),
    }
}

/// The text of the claim `name`, which may be absent or empty.
fn read_optional_text(fields: &Vec<(String, ClaimValue)>, name: &str) -> (read: Result<
    Option<String>,
    TokenFault,
>)
    ensures
        match read {
            Ok(text) => optional_text_claim(claim_map(fields@), name@) == Ok::<
                Option<Seq<char>>,
                FaultView,
            >(opt_view(text)),
            Err(fault) => optional_text_claim(claim_map(fields@), name@) == Err::<
                Option<Seq<char>>,
                FaultView,
            >(fault@),
        },
{
    match find_claim(fields, name) {
        None => Ok(None),
        Some(ClaimValue::Null) => Ok(None),
        Some(ClaimValue::Text(text)) => Ok(Some(text.clone())),
        Some(_) => Err(TokenFault::InvalidClaim(name.to_owned())),
    }
}

/// The number of the claim `name`, which has to be there.
fn read_integer(fields: &Vec<(String, ClaimValue)>, name: &str) -> (read: Result<i64, TokenFault>)
    ensures
        match read {
            Ok(number) => integer_claim(claim_map(fields@), name@) == Ok::<int, FaultView>(
                number as int,
            ),
            Err(fault) => integer_claim(claim_map(fields@), name@) == Err::<int, FaultView>(
                fault@,
            ),
        },
{
    match find_claim(fields, name) {
        None => Err(TokenFault::MissingClaim(name.to_owned())),
        Some(ClaimValue::Integer(number)) => Ok(*number),
        Some(_) => Err(TokenFault::InvalidClaim(name.to_owned())),
    }
}

impl JwtClaims {
    /// The claims as named values, in the order in which they are declared.
    pub fn to_fields(&self) -> (fields: Vec<(String, ClaimValue)>)
        ensures
            field_views(fields@) == claim_list(self@),
            claim_map(fields@) == fields_of(self@),
            fields@.len() == 8,
            forall|i: int| 0 <= i < fields@.len() ==> !((#[trigger] fields@[i]).1 is Other),
    {
        let mut fields: Vec<(String, ClaimValue)> = Vec::new();
        fields.push(("sub".to_owned(), ClaimValue::Text(self.sub.clone())));
        fields.push(
            (
                "name".to_owned(),
                match &self.name {
                    Some(text) => ClaimValue::Text(text.clone()),
                    None => ClaimValue::Null,
                },
            ),
        );
        fields.push(
            (
                "email".to_owned(),
                match &self.email {
                    Some(text) => ClaimValue::Text(text.clone()),
                    None => ClaimValue::Null,
                },
            ),
        );
        fields.push(("tier".to_owned(), ClaimValue::Text(self.tier.clone())));
        fields.push(("provider".to_owned(), ClaimValue::Text(self.provider.clone())));
        fields.push(("iat".to_owned(), ClaimValue::Integer(self.iat)));
        fields.push(("exp".to_owned(), ClaimValue::Integer(self.exp)));
        fields.push(("jti".to_owned(), ClaimValue::Text(self.jti.clone())));
        proof {
            let all = fields@;
            assert(field_views(all) =~= claim_list(self@));
            reveal_with_fuel(claim_map, 9);
            assert(all.take(8) =~= all);
            assert forall|n: int| 1 <= n <= 8 implies #[trigger] all.take(n).drop_last()
                =~= all.take(n - 1) by {}
            assert(claim_map(all.take(0)) =~= Map::<Seq<char>, ClaimValueView>::empty());
            assert(claim_map(all.take(1)) == claim_map(all.take(0)).insert(all[0].0@, all[0].1@));
            assert(claim_map(all.take(2)) == claim_map(all.take(1)).insert(all[1].0@, all[1].1@));
            assert(claim_map(all.take(3)) == claim_map(all.take(2)).insert(all[2].0@, all[2].1@));
            assert(claim_map(all.take(4)) == claim_map(all.take(3)).insert(all[3].0@, all[3].1@));
            assert(claim_map(all.take(5)) == claim_map(all.take(4)).insert(all[4].0@, all[4].1@));
            assert(claim_map(all.take(6)) == claim_map(all.take(5)).insert(all[5].0@, all[5].1@));
            assert(claim_map(all.take(7)) == claim_map(all.take(6)).insert(all[6].0@, all[6].1@));
            assert(claim_map(all.take(8)) == claim_map(all.take(7)).insert(all[7].0@, all[7].1@));
        }
        fields
    }

    /// The claims that the named values `fields` hold, or the first fault
    /// among them.
    pub fn from_fields(fields: &Vec<(String, ClaimValue)>) -> (read: Result<JwtClaims, TokenFault>)
        ensures
            match read {
                Ok(claims) => claims_of(claim_map(fields@)) == Ok::<ClaimsView, FaultView>(claims@),
                Err(fault) => claims_of(claim_map(fields@)) == Err::<ClaimsView, FaultView>(
                    fault@,
                ),
            },
    {
        let sub = match read_text(fields, "sub") {
            Ok(text) => text,
            Err(fault) => { return Err(fault); },
        };
        let name = match read_optional_text(fields, "name") {
            Ok(text) => text,
            Err(fault) => { return Err(fault); },
        };
        let email = match read_optional_text(fields, "email") {
            Ok(text) => text,
            Err(fault) => { return Err(fault); },
        };
        let tier = match read_text(fields, "tier") {
            Ok(text) => text,
            Err(fault) => { return Err(fault); },
        };
        let provider = match read_text(fields, "provider") {
            Ok(text) => text,
            Err(fault) => { return Err(fault); },
        };
        let iat = match read_integer(fields, "iat") {
            Ok(number) => number,
            Err(fault) => { return Err(fault); },
        };
        let exp = match read_integer(fields, "exp") {
            Ok(number) => number,
            Err(fault) => { return Err(fault); },
        };
        let jti = match read_text(fields, "jti") {
            Ok(text) => text,
            Err(fault) => { return Err(fault); },
        };
        Ok(JwtClaims { sub, name, email, tier, provider, iat, exp, jti })
    }
}

} // verus!
