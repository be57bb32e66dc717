//! Rendering a fetched user profile's fields into one display line: each
//! present field is labeled, absent fields contribute nothing, and the
//! fields stand in a fixed order separated by single spaces.

use vstd::prelude::*;
use vstd::string::StringExecFns;

verus! {

/// A labeled optional field followed by a comma, or nothing when absent.
pub open spec fn field_spec(label: Seq<char>, v: Option<Seq<char>>) -> Seq<char> {
    match v {
        None => Seq::empty(),
        Some(x) => label + x + ","@,
    }
}

/// A labeled optional field without the trailing comma.
pub open spec fn last_field_spec(label: Seq<char>, v: Option<Seq<char>>) -> Seq<char> {
    match v {
        None => Seq::empty(),
        Some(x) => label + x,
    }
}

/// A biography field: an empty biography is treated as absent.
pub open spec fn bio_field_spec(v: Option<Seq<char>>) -> Seq<char> {
    match v {
        Some(b) => if b.len() == 0 {
            Seq::empty()
        } else {
            "Bio: "@ + b + ","@
        },
        None => Seq::empty(),
    }
}

fn append_field(out: &mut String, label: &str, v: &Option<String>)
    ensures
        final(out)@ == old(out)@ + field_spec(label@, match v {
            Some(x) => Some(x@),
            None => None,
        }),
{
    match v {
        Some(x) => {
            out.append(label);
            out.append(x.as_str());
            out.append(",");
            proof {
                assert(out@ =~= old(out)@ + (label@ + x@ + ","@));
            }
        },
        None => {
            proof {
                assert(out@ =~= old(out)@ + Seq::<char>::empty());
            }
        },
    }
}

/// One profile display line, as produced for a fetched user: the labeled
/// name, login, locator, social handle, biography, company, location,
/// creation date and email, space-separated, ending in a newline.
pub open spec fn profile_line_spec(
    name: Option<Seq<char>>,
    login: Option<Seq<char>>,
    url: Option<Seq<char>>,
    twitter: Option<Seq<char>>,
    bio: Option<Seq<char>>,
    company: Option<Seq<char>>,
    location: Option<Seq<char>>,
    created_date: Option<Seq<char>>,
    email: Option<Seq<char>>,
) -> Seq<char> {
    field_spec("Name: "@, name) + " "@ + field_spec("Login: "@, login) + " "@ + field_spec(
        "Url: "@,
        url,
    ) + " "@ + field_spec("Twitter: "@, twitter) + " "@ + bio_field_spec(bio) + " "@ + field_spec(
        "Company: "@,
        company,
    ) + " "@ + field_spec("Location: "@, location) + " "@ + field_spec("Created At: "@, created_date)
        + " "@ + last_field_spec("Email: "@, email) + "\n"@
}

/// The view of an optional owned string.
pub open spec fn opt_view(v: Option<String>) -> Option<Seq<char>> {
    match v {
        Some(x) => Some(x@),
        None => None,
    }
}

/// Renders one profile display line from the fetched fields.  The creation
/// date arrives already rendered as a plain date string.
#[verifier::rlimit(100)]
pub fn profile_line(
    name: &Option<String>,
    login: &Option<String>,
    url: &Option<String>,
    twitter: &Option<String>,
    bio: &Option<String>,
    company: &Option<String>,
    location: &Option<String>,
    created_date: &Option<String>,
    email: &Option<String>,
) -> (r: String)
    ensures
        r@ == profile_line_spec(
            opt_view(*name),
            opt_view(*login),
            opt_view(*url),
            opt_view(*twitter),
            opt_view(*bio),
            opt_view(*company),
            opt_view(*location),
            opt_view(*created_date),
            opt_view(*email),
        ),
{
    let mut out = String::new();
    append_field(&mut out, "Name: ", name);
    out.append(" ");
    proof {
        assert(out@ =~= field_spec("Name: "@, opt_view(*name)) + " "@);
    }
    append_field(&mut out, "Login: ", login);
    out.append(" ");
    let ghost c2 = field_spec("Name: "@, opt_view(*name)) + " "@ + field_spec(
        "Login: "@,
        opt_view(*login),
    ) + " "@;
    proof {
        assert(out@ =~= c2);
    }
    append_field(&mut out, "Url: ", url);
    out.append(" ");
    let ghost c3 = c2 + field_spec("Url: "@, opt_view(*url)) + " "@;
    proof {
        assert(out@ =~= c3);
    }
    append_field(&mut out, "Twitter: ", twitter);
    out.append(" ");
    let ghost c4 = c3 + field_spec("Twitter: "@, opt_view(*twitter)) + " "@;
    proof {
        assert(out@ =~= c4);
    }
    match bio {
        Some(b) => {
            if !b.as_str().is_empty() {
                out.append("Bio: ");
                out.append(b.as_str());
                out.append(",");
            }
        },
        None => {},
    }
    out.append(" ");
    let ghost c5 = c4 + bio_field_spec(opt_view(*bio)) + " "@;
    proof {
        assert(out@ =~= c5);
    }
    append_field(&mut out, "Company: ", company);
    out.append(" ");
    let ghost c6 = c5 + field_spec("Company: "@, opt_view(*company)) + " "@;
    proof {
        assert(out@ =~= c6);
    }
    append_field(&mut out, "Location: ", location);
    out.append(" ");
    let ghost c7 = c6 + field_spec("Location: "@, opt_view(*location)) + " "@;
    proof {
        assert(out@ =~= c7);
    }
    append_field(&mut out, "Created At: ", created_date);
    out.append(" ");
    let ghost c8 = c7 + field_spec("Created At: "@, opt_view(*created_date)) + " "@;
    proof {
        assert(out@ =~= c8);
    }
    match email {
        Some(e) => {
            out.append("Email: ");
            out.append(e.as_str());
        },
        None => {},
    }
    out.append("\n");
    let ghost c9 = c8 + last_field_spec("Email: "@, opt_view(*email)) + "\n"@;
    proof {
        assert(out@ =~= c9);
        assert(c9 =~= profile_line_spec(
            opt_view(*name),
            opt_view(*login),
            opt_view(*url),
            opt_view(*twitter),
            opt_view(*bio),
            opt_view(*company),
            opt_view(*location),
            opt_view(*created_date),
            opt_view(*email),
        ));
    }
    out
}

/// The heading of a user profile report.
pub fn profile_report_header() -> (r: String)
    ensures
        r@ == "USER_profile: \n"@,
{
    "USER_profile: \n".to_owned()
}

} // verus!
