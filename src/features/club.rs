use vstd::prelude::*;

verus! {

/// A club record as the backend returns it.
#[derive(Debug, Clone, PartialEq, Eq)]
pub struct ClubResponse {
    pub created_by: String,
    pub modified_by: String,
    pub deleted: bool,
    pub id: u32,
    pub club_name: String,
    pub vat_code: String,
    pub address: String,
    pub category: String,
    pub opening_time: String,
    pub closing_time: String,
    pub phone_number: String,
    pub image: Option<String>,
}

/// Path under which the backend serves club records.
pub const CLUB_PATH_PREFIX: &'static str = "/api/v1/club/";

pub open spec fn digit_char(d: nat) -> char {
    seq!['0', '1', '2', '3', '4', '5', '6', '7', '8', '9'][d as int]
}

/// Decimal notation of `n`, without leading zeros.
pub open spec fn decimal(n: nat) -> Seq<char>
    decreases n,
{
    if n < 10 {
        seq![digit_char(n)]
    } else {
        decimal(n / 10).push(digit_char(n % 10))
    }
}

fn digit_text(d: u32) -> (r: &'static str)
    requires
        d < 10,
    ensures
        r@ == seq![digit_char(d as nat)],
{
    proof {
        reveal_strlit("0");
        reveal_strlit("1");
        reveal_strlit("2");
        reveal_strlit("3");
        reveal_strlit("4");
        reveal_strlit("5");
        reveal_strlit("6");
        reveal_strlit("7");
        reveal_strlit("8");
        reveal_strlit("9");
    }
    let r = if d == 0 {
        "0"
    } else if d == 1 {
        "1"
    } else if d == 2 {
        "2"
    } else if d == 3 {
        "3"
    } else if d == 4 {
        "4"
    } else if d == 5 {
        "5"
    } else if d == 6 {
        "6"
    } else if d == 7 {
        "7"
    } else if d == 8 {
        "8"
    } else {
        "9"
    };
    assert(r@ =~= seq![digit_char(d as nat)]);
    r
}

/// Decimal notation of `n`.
pub fn decimal_text(n: u32) -> (r: String)
    ensures
        r@ == decimal(n as nat),
    decreases n,
{
    if n < 10 {
        String::from_str(digit_text(n))
    } else {
        let mut r = decimal_text(n / 10);
        r.append(digit_text(n % 10));
        r
    }
}

/// Path of the record of club `club_id`.
pub fn club_path(club_id: u32) -> (r: String)
    ensures
        r@ == CLUB_PATH_PREFIX@ + decimal(club_id as nat),
{
    let mut path = String::from_str(CLUB_PATH_PREFIX);
    let id = decimal_text(club_id);
    path.append(id.as_str());
    path
}

} // verus!
