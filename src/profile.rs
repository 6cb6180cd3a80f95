//! Profiles: creation, listing, and partial update through statements with
//! positional parameters.
use vstd::prelude::*;
use crate::store::{count_of, lemma_count_absent};
use crate::validate::{profile_check, validate_profile_create, ValidationError};

verus! {

/// Why a profile operation did not succeed.
#[derive(Clone, Copy, Debug, PartialEq, Eq, Structural)]
pub enum ProfileError {
    /// The request broke an input rule.
    Validation(ValidationError),
    /// The update names no user.
    MissingUserId,
    /// The update sets no field.
    NoFieldsProvided,
    /// The store failed; its own message is not passed on.
    Persistence,
}

/// What a well-formed update came to.
#[derive(Clone, Copy, Debug, PartialEq, Eq, Structural)]
pub enum UpdateOutcome {
    /// This many rows were changed.
    Updated(u64),
    /// No row has the user id.
    NotFound,
}

/// A profile, as created and as listed.
pub struct ProfileCreate {
    pub fullname: String,
    pub phonenumber: String,
    pub address: String,
    pub bio: String,
    pub userid: String,
}

/// A partial update: the fields that are present are set, for the profile
/// of `userid`.
pub struct ProfileUpdate {
    pub fullname: Option<String>,
    pub phonenumber: Option<String>,
    pub address: Option<String>,
    pub bio: Option<String>,
    pub userid: String,
}

/// A statement for the store: its text refers to the values by position
/// (`$1`, `$2`, ...), and `params` holds them in that order.
pub struct Statement {
    pub text: String,
    pub params: Vec<String>,
}

pub open spec fn texts(v: Seq<String>) -> Seq<Seq<char>> {
    v.map_values(|s: String| s@)
}

impl View for Statement {
    type V = (Seq<char>, Seq<Seq<char>>);

    open spec fn view(&self) -> (Seq<char>, Seq<Seq<char>>) {
        (self.text@, texts(self.params@))
    }
}

pub const INSERT_PROFILE: &'static str =
    "INSERT INTO userprofile (fullname, phonenumber, address, bio, userid) VALUES ($1, $2, $3, $4, $5)";

pub const SELECT_PROFILES: &'static str = "SELECT fullname, phonenumber, address, bio, userid FROM userprofile";

pub const UPDATE_PREFIX: &'static str = "UPDATE userprofile SET ";

pub const ASSIGN: &'static str = " = ";

pub const SEPARATOR: &'static str = ", ";

pub const WHERE_USERID: &'static str = " WHERE userid = ";

pub const FULLNAME: &'static str = "fullname";

pub const PHONENUMBER: &'static str = "phonenumber";

pub const ADDRESS: &'static str = "address";

pub const BIO: &'static str = "bio";

/// Validates a new profile and gives the statement that inserts it.
pub fn createprofilefn(p: &ProfileCreate) -> (r: Result<Statement, ProfileError>)
    ensures
        profile_check(p.fullname@, p.phonenumber@) matches Err(e)
            ==> r == Err::<Statement, ProfileError>(ProfileError::Validation(e)),
        profile_check(p.fullname@, p.phonenumber@) is Ok ==> (r matches Ok(st) && st@ == (
            INSERT_PROFILE@,
            seq![p.fullname@, p.phonenumber@, p.address@, p.bio@, p.userid@],
        )),
{
    if let Err(e) = validate_profile_create(p.fullname.as_str(), p.phonenumber.as_str()) {
        return Err(ProfileError::Validation(e));
    }
    let params: Vec<String> = vec![
        p.fullname.clone(),
        p.phonenumber.clone(),
        p.address.clone(),
        p.bio.clone(),
        p.userid.clone(),
    ];
    let st = Statement { text: String::from_str(INSERT_PROFILE), params };
    assert(texts(st.params@) =~= seq![p.fullname@, p.phonenumber@, p.address@, p.bio@, p.userid@]);
    Ok(st)
}

/// The statement that lists every profile.
pub fn getallprofile() -> (r: Statement)
    ensures
        r@ == (SELECT_PROFILES@, Seq::<Seq<char>>::empty()),
{
    let st = Statement { text: String::from_str(SELECT_PROFILES), params: Vec::new() };
    assert(texts(st.params@) =~= Seq::<Seq<char>>::empty());
    st
}

/// The decimal digit `d`, for `d` below ten.
pub open spec fn digit_char(d: nat) -> char {
    if d == 0 { '0' } else if d == 1 { '1' } else if d == 2 { '2' } else if d == 3 { '3' }
    else if d == 4 { '4' } else if d == 5 { '5' } else if d == 6 { '6' } else if d == 7 { '7' }
    else if d == 8 { '8' } else { '9' }
}

/// The reference to the parameter at position `i` (from 1), such as `$3`.
pub open spec fn param_ref(i: nat) -> Seq<char>
    decreases i,
{
    if i < 10 {
        seq!['$', digit_char(i)]
    } else {
        param_ref(i / 10) + seq![digit_char(i % 10)]
    }
}

/// The assignment of the parameter at position `i` to the column `name`.
pub open spec fn assignment(name: Seq<char>, i: nat) -> Seq<char> {
    name + ASSIGN@ + param_ref(i)
}

/// The assignments of the columns `names` to the parameters 1, 2, ..., in
/// order and separated by commas.
pub open spec fn set_clause(names: Seq<Seq<char>>) -> Seq<char>
    decreases names.len(),
{
    if names.len() == 0 {
        Seq::empty()
    } else if names.len() == 1 {
        assignment(names[0], 1)
    } else {
        set_clause(names.drop_last()) + SEPARATOR@ + assignment(names.last(), names.len())
    }
}

pub open spec fn name_if_set(name: Seq<char>, v: Option<String>) -> Seq<Seq<char>> {
    if v is Some { seq![name] } else { Seq::empty() }
}

pub open spec fn value_if_set(v: Option<String>) -> Seq<Seq<char>> {
    match v {
        Some(x) => seq![x@],
        None => Seq::empty(),
    }
}

/// The columns that an update sets, in the fixed order fullname,
/// phonenumber, address, bio.
pub open spec fn set_names(u: ProfileUpdate) -> Seq<Seq<char>> {
    name_if_set(FULLNAME@, u.fullname) + name_if_set(PHONENUMBER@, u.phonenumber)
        + name_if_set(ADDRESS@, u.address) + name_if_set(BIO@, u.bio)
}

/// The values that an update sets, in the order of `set_names`.
pub open spec fn set_values(u: ProfileUpdate) -> Seq<Seq<char>> {
    value_if_set(u.fullname) + value_if_set(u.phonenumber) + value_if_set(u.address)
        + value_if_set(u.bio)
}

/// The text of the statement for an update.
pub open spec fn update_text(u: ProfileUpdate) -> Seq<char> {
    UPDATE_PREFIX@ + set_clause(set_names(u)) + WHERE_USERID@ + param_ref(set_names(u).len() + 1)
}

/// What an update request comes to: a refusal, or the statement's text and
/// its parameters, the user id last.
pub open spec fn update_plan(u: ProfileUpdate) -> Result<(Seq<char>, Seq<Seq<char>>), ProfileError> {
    if u.userid@.len() == 0 {
        Err(ProfileError::MissingUserId)
    } else if set_names(u).len() == 0 {
        Err(ProfileError::NoFieldsProvided)
    } else {
        Ok((update_text(u), set_values(u).push(u.userid@)))
    }
}

/// The text `$i`, for a position from 1 to 5.
fn param_ref_text(i: usize) -> (r: &'static str)
    requires
        1 <= i <= 5,
    ensures
        r@ == param_ref(i as nat),
{
    if i == 1 {
        proof { reveal_strlit("$1"); }
        "$1"
    } else if i == 2 {
        proof { reveal_strlit("$2"); }
        "$2"
    } else if i == 3 {
        proof { reveal_strlit("$3"); }
        "$3"
    } else if i == 4 {
        proof { reveal_strlit("$4"); }
        "$4"
    } else {
        proof { reveal_strlit("$5"); }
        "$5"
    }
}

/// Appends the assignment of `value` to the column `name`, if the value is
/// present, after those already in `text`.
fn push_assignment(
    text: &mut String,
    params: &mut Vec<String>,
    name: &str,
    value: &Option<String>,
    Ghost(names): Ghost<Seq<Seq<char>>>,
)
    requires
        names.len() == old(params)@.len(),
        names.len() <= 3,
        old(text)@ == UPDATE_PREFIX@ + set_clause(names),
    ensures
        final(text)@ == UPDATE_PREFIX@ + set_clause(names + name_if_set(name@, *value)),
        texts(final(params)@) == texts(old(params)@) + value_if_set(*value),
        final(params)@.len() == (names + name_if_set(name@, *value)).len(),
{
    match value {
        None => {
            assert(names + name_if_set(name@, *value) =~= names);
            assert(texts(old(params)@) + value_if_set(*value) =~= texts(old(params)@));
        },
        Some(v) => {
            if params.len() > 0 {
                text.append(SEPARATOR);
            }
            text.append(name);
            text.append(ASSIGN);
            text.append(param_ref_text(params.len() + 1));
            params.push(v.clone());
            let ghost all = names + name_if_set(name@, *value);
            assert(all.drop_last() =~= names);
            assert(all.last() == name@);
            proof {
                if names.len() == 0 {
                    assert(set_clause(names) =~= Seq::<char>::empty());
                    assert(text@ =~= UPDATE_PREFIX@ + set_clause(all));
                } else {
                    assert(text@ =~= UPDATE_PREFIX@ + set_clause(all));
                }
                assert(texts(params@) =~= texts(old(params)@) + value_if_set(*value));
            }
        },
    }
}

/// Builds the statement for a partial update. It refuses a request without
/// a user id, and one that sets no field, before the store is reached.
/// Otherwise it assigns each field that is present, in the fixed order
/// fullname, phonenumber, address, bio, to the next positional parameter,
/// and filters on the user id, bound last.
pub fn updateprofile(u: &ProfileUpdate) -> (r: Result<Statement, ProfileError>)
    ensures
        match r {
            Ok(st) => update_plan(*u) == Ok::<(Seq<char>, Seq<Seq<char>>), ProfileError>(st@),
            Err(e) => update_plan(*u) == Err::<(Seq<char>, Seq<Seq<char>>), ProfileError>(e),
        },
{
    if u.userid.as_str().is_empty() {
        return Err(ProfileError::MissingUserId);
    }
    if u.fullname.is_none() && u.phonenumber.is_none() && u.address.is_none() && u.bio.is_none() {
        return Err(ProfileError::NoFieldsProvided);
    }
    let mut text = String::from_str(UPDATE_PREFIX);
    let mut params: Vec<String> = Vec::new();
    assert(text@ =~= UPDATE_PREFIX@ + set_clause(Seq::empty()));
    let ghost n1 = name_if_set(FULLNAME@, u.fullname);
    let ghost n2 = n1 + name_if_set(PHONENUMBER@, u.phonenumber);
    let ghost n3 = n2 + name_if_set(ADDRESS@, u.address);
    push_assignment(&mut text, &mut params, FULLNAME, &u.fullname, Ghost(Seq::empty()));
    assert(Seq::<Seq<char>>::empty() + name_if_set(FULLNAME@, u.fullname) =~= n1);
    push_assignment(&mut text, &mut params, PHONENUMBER, &u.phonenumber, Ghost(n1));
    push_assignment(&mut text, &mut params, ADDRESS, &u.address, Ghost(n2));
    push_assignment(&mut text, &mut params, BIO, &u.bio, Ghost(n3));
    let n = params.len();
    text.append(WHERE_USERID);
    text.append(param_ref_text(n + 1));
    params.push(u.userid.clone());
    assert(texts(params@) =~= set_values(*u).push(u.userid@));
    Ok(Statement { text, params })
}

/// The outcome of an update, given how many rows the store changed.
pub open spec fn update_result(rows: int) -> UpdateOutcome {
    if rows == 0 {
        UpdateOutcome::NotFound
    } else {
        UpdateOutcome::Updated(rows as u64)
    }
}

/// Reads the store's count of changed rows: none means that no profile has
/// the user id, which is an outcome and no error.
pub fn update_outcome(rows: u64) -> (r: UpdateOutcome)
    ensures
        r == update_result(rows as int),
{
    if rows == 0 {
        UpdateOutcome::NotFound
    } else {
        UpdateOutcome::Updated(rows)
    }
}

/// An update that sets only the bio assigns exactly that column, to `$1`,
/// and filters on the user id as `$2`: two parameters, the bio first.
pub proof fn lemma_bio_only_update(bio: String, userid: String)
    requires
        userid@.len() > 0,
    ensures
        update_plan(
            ProfileUpdate { fullname: None, phonenumber: None, address: None, bio: Some(bio), userid },
        ) == Ok::<(Seq<char>, Seq<Seq<char>>), ProfileError>((
            UPDATE_PREFIX@ + BIO@ + ASSIGN@ + seq!['$', '1'] + WHERE_USERID@ + seq!['$', '2'],
            seq![bio@, userid@],
        )),
{
    let u = ProfileUpdate { fullname: None, phonenumber: None, address: None, bio: Some(bio), userid };
    assert(set_names(u) =~= seq![BIO@]);
    assert(set_values(u) =~= seq![bio@]);
    assert(set_values(u).push(userid@) =~= seq![bio@, userid@]);
    assert(update_text(u) =~= UPDATE_PREFIX@ + BIO@ + ASSIGN@ + seq!['$', '1'] + WHERE_USERID@ + seq!['$', '2']);
}

/// An update that sets no field is refused before any statement is built.
pub proof fn lemma_update_without_fields(userid: String)
    requires
        userid@.len() > 0,
    ensures
        update_plan(
            ProfileUpdate { fullname: None, phonenumber: None, address: None, bio: None, userid },
        ) == Err::<(Seq<char>, Seq<Seq<char>>), ProfileError>(ProfileError::NoFieldsProvided),
{
    let u = ProfileUpdate { fullname: None, phonenumber: None, address: None, bio: None, userid };
    assert(set_names(u) =~= Seq::<Seq<char>>::empty());
}

/// The text of an update's statement depends only on which fields are
/// present, never on the values: those travel as parameters alone.
pub proof fn lemma_text_independent_of_values(a: ProfileUpdate, b: ProfileUpdate)
    requires
        a.fullname is Some <==> b.fullname is Some,
        a.phonenumber is Some <==> b.phonenumber is Some,
        a.address is Some <==> b.address is Some,
        a.bio is Some <==> b.bio is Some,
    ensures
        update_text(a) == update_text(b),
{
    assert(set_names(a) =~= set_names(b));
}

/// Where no stored profile has the user id, the store changes no row, and
/// the update comes to `NotFound`, which is no error.
pub proof fn lemma_unknown_user_not_found(userids: Seq<Seq<char>>, userid: Seq<char>)
    requires
        forall|i: int| 0 <= i < userids.len() ==> userids[i] != userid,
    ensures
        count_of(userids, userid) == 0,
        update_result(count_of(userids, userid) as int) == UpdateOutcome::NotFound,
{
    lemma_count_absent(userids, userid);
}

} // verus!
