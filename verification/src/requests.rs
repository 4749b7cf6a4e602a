//! The three requests that an account sends, as plain values: what to send
//! where. The caller performs them.

use crate::placement::PlacementTarget;
use crate::session::Session;
use vstd::prelude::*;
use vstd::string::StringExecFns;

verus! {

/// How a request is sent.
#[derive(Clone, Copy, Debug, PartialEq, Eq)]
pub enum Method {
    Get,
    Post,
}

/// A named text value: a form field or a header.
#[derive(Debug)]
pub struct Field {
    pub name: String,
    pub value: String,
}

/// One request: its method and address, the fields of its form, and the
/// headers added to it.
#[derive(Debug)]
pub struct Request {
    pub method: Method,
    pub url: String,
    pub form: Vec<Field>,
    pub headers: Vec<Field>,
}

/// Whether a field has this name and this value.
pub open spec fn field_is(field: Field, name: Seq<char>, value: Seq<char>) -> bool {
    field.name@ == name && field.value@ == value
}

/// The character of a decimal digit.
pub open spec fn digit_char(d: int) -> char {
    if d == 0 {
        '0'
    } else if d == 1 {
        '1'
    } else if d == 2 {
        '2'
    } else if d == 3 {
        '3'
    } else if d == 4 {
        '4'
    } else if d == 5 {
        '5'
    } else if d == 6 {
        '6'
    } else if d == 7 {
        '7'
    } else if d == 8 {
        '8'
    } else {
        '9'
    }
}

/// A number in decimal, without sign or leading zeros.
pub open spec fn decimal_text(n: nat) -> Seq<char>
    decreases n,
{
    if n < 10 {
        seq![digit_char(n as int)]
    } else {
        decimal_text(n / 10).push(digit_char((n % 10) as int))
    }
}

/// The cookies of a session as the value of one header: one after the
/// other, with a semicolon and a space between two.
pub open spec fn cookie_text(cookies: Seq<String>) -> Seq<char>
    decreases cookies.len(),
{
    if cookies.len() == 0 {
        Seq::empty()
    } else if cookies.len() == 1 {
        cookies[0]@
    } else {
        cookie_text(cookies.drop_last()) + "; "@ + cookies.last()@
    }
}

/// Address of the login request, to which the user name is appended.
pub open spec fn login_address() -> Seq<char> {
    "https://www.reddit.com/api/login/"@
}

/// Address of the pixel read, up to the value of `x`.
pub open spec fn pixel_address() -> Seq<char> {
    "https://www.reddit.com/api/place/pixel.json?x="@
}

/// Address of the paint request.
pub open spec fn draw_address() -> Seq<char> {
    "https://www.reddit.com/api/place/draw.json"@
}

/// The text of one decimal digit.
fn digit_text(d: u64) -> (s: &'static str)
    requires
        d < 10,
    ensures
        s@ == seq![digit_char(d as int)],
{
    proof {
        reveal_strlit("0");
        reveal_strlit("1");
        reveal_strlit("2");
        reveal_strlit("3");
        reveal_strlit("4");
        reveal_strlit("5");
        reveal_strlit("6");
        reveal_strlit("7");
        reveal_strlit("8");
        reveal_strlit("9");
    }
    let s = if d == 0 {
        "0"
    } else if d == 1 {
        "1"
    } else if d == 2 {
        "2"
    } else if d == 3 {
        "3"
    } else if d == 4 {
        "4"
    } else if d == 5 {
        "5"
    } else if d == 6 {
        "6"
    } else if d == 7 {
        "7"
    } else if d == 8 {
        "8"
    } else {
        "9"
    };
    assert(s@ =~= seq![digit_char(d as int)]);
    s
}

/// Writes a number in decimal.
pub fn decimal(n: u64) -> (text: String)
    ensures
        text@ == decimal_text(n as nat),
    decreases n,
{
    if n < 10 {
        String::from_str(digit_text(n))
    } else {
        let mut text = decimal(n / 10);
        text.append(digit_text(n % 10));
        text
    }
}

/// Builds a field from its name and its value.
fn field(name: &str, value: &str) -> (f: Field)
    ensures
        field_is(f, name@, value@),
{
    Field { name: String::from_str(name), value: String::from_str(value) }
}

/// Joins the cookies of a session into the value of one header.
pub fn cookie_header(cookies: &Vec<String>) -> (text: String)
    ensures
        text@ == cookie_text(cookies@),
{
    let mut text = String::new();
    let mut i: usize = 0;
    while i < cookies.len()
        invariant
            i <= cookies.len(),
            text@ == cookie_text(cookies@.take(i as int)),
        decreases cookies.len() - i,
    {
        proof {
            let before = cookies@.take(i as int);
            let after = cookies@.take(i + 1);
            assert(after.drop_last() =~= before);
            assert(after.last() == cookies@[i as int]);
            if i == 0 {
                assert(text@ + cookies@[i as int]@ =~= cookies@[i as int]@);
            }
        }
        if i > 0 {
            text.append("; ");
        }
        text.append(cookies[i].as_str());
        i = i + 1;
    }
    proof {
        assert(cookies@.take(cookies@.len() as int) =~= cookies@);
    }
    text
}

/// The login request of an account: a form posted to the login address of
/// the user, with the credentials and the wish for a JSON answer.
pub fn login_request(username: &str, password: &str) -> (request: Request)
    ensures
        request.method == Method::Post,
        request.url@ == login_address() + username@,
        request.form@.len() == 4,
        field_is(request.form@[0], "op"@, "login"@),
        field_is(request.form@[1], "user"@, username@),
        field_is(request.form@[2], "passwd"@, password@),
        field_is(request.form@[3], "api_type"@, "json"@),
        request.headers@.len() == 0,
{
    let mut url = String::from_str("https://www.reddit.com/api/login/");
    url.append(username);
    let mut form: Vec<Field> = Vec::new();
    form.push(field("op", "login"));
    form.push(field("user", username));
    form.push(field("passwd", password));
    form.push(field("api_type", "json"));
    Request { method: Method::Post, url, form, headers: Vec::new() }
}

/// The read of one canvas pixel: a plain fetch with the coordinate in the
/// address.
pub fn pixel_request(x: u64, y: u64) -> (request: Request)
    ensures
        request.method == Method::Get,
        request.url@ == pixel_address() + decimal_text(x as nat) + "&y="@ + decimal_text(y as nat),
        request.form@.len() == 0,
        request.headers@.len() == 0,
{
    let mut url = String::from_str("https://www.reddit.com/api/place/pixel.json?x=");
    let x_text = decimal(x);
    url.append(x_text.as_str());
    url.append("&y=");
    let y_text = decimal(y);
    url.append(y_text.as_str());
    Request { method: Method::Get, url, form: Vec::new(), headers: Vec::new() }
}

/// The paint request for a target under a session: a form with the
/// coordinate and the colour, the session's token in the `x-modhash` header
/// and its cookies in the `cookie` header.
pub fn draw_request(session: &Session, target: PlacementTarget) -> (request: Request)
    ensures
        request.method == Method::Post,
        request.url@ == draw_address(),
        request.form@.len() == 3,
        field_is(request.form@[0], "x"@, decimal_text(target.absolute_x as nat)),
        field_is(request.form@[1], "y"@, decimal_text(target.absolute_y as nat)),
        field_is(request.form@[2], "color"@, decimal_text(target.desired as nat)),
        request.headers@.len() == 2,
        field_is(request.headers@[0], "x-modhash"@, session.modhash@),
        field_is(request.headers@[1], "cookie"@, cookie_text(session.cookies@)),
{
    let x_text = decimal(target.absolute_x);
    let y_text = decimal(target.absolute_y);
    let color_text = decimal(target.desired as u64);
    let mut form: Vec<Field> = Vec::new();
    form.push(field("x", x_text.as_str()));
    form.push(field("y", y_text.as_str()));
    form.push(field("color", color_text.as_str()));
    let cookies = cookie_header(&session.cookies);
    let mut headers: Vec<Field> = Vec::new();
    headers.push(field("x-modhash", session.modhash.as_str()));
    headers.push(field("cookie", cookies.as_str()));
    Request {
        method: Method::Post,
        url: String::from_str("https://www.reddit.com/api/place/draw.json"),
        form,
        headers,
    }
}

} // verus!
