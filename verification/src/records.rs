//! Plain record types shared with the surrounding application: stored
//! user and content rows, and the fixed catalog of offered services.

use vstd::prelude::*;

verus! {

/// A stored user account row.
#[derive(Clone, Debug)]
pub struct UserRow {
    pub id: String,
    pub username: String,
    pub display_name: String,
    pub role: String,
    pub password_hash: String,
    pub active: i64,
    pub created_at: String,
}

/// A stored content block of the editable site copy.
#[derive(Clone, Debug)]
pub struct CmsBlockRow {
    pub key: String,
    pub title: String,
    pub html: String,
}

/// One bookable service, as offered on the booking form.
#[derive(Clone, Copy, Debug)]
pub struct ServiceOption {
    pub name: &'static str,
    pub duration: &'static str,
    pub description: &'static str,
    pub selected: bool,
}

/// The fixed list of offered services, none preselected.
pub fn service_catalog() -> (r: Vec<ServiceOption>)
    ensures
        r@.len() == 4,
        r@[0].name@ == "Signature Cut"@ && r@[0].duration@ == "45 min"@ && r@[0].description@
            == "Precision cut, styling, and lineup."@,
        r@[1].name@ == "Fade & Line-Up"@ && r@[1].duration@ == "35 min"@ && r@[1].description@
            == "Skin fade with sharp finishing touches."@,
        r@[2].name@ == "Beard Sculpt"@ && r@[2].duration@ == "25 min"@ && r@[2].description@
            == "Shape, trim, and conditioning for the beard."@,
        r@[3].name@ == "Full Grooming"@ && r@[3].duration@ == "60 min"@ && r@[3].description@
            == "Cut, beard, and grooming refresh."@,
        forall|i: int| 0 <= i < 4 ==> !(#[trigger] r@[i]).selected,
{
    let mut out: Vec<ServiceOption> = Vec::new();
    out.push(
        ServiceOption {
            name: "Signature Cut",
            duration: "45 min",
            description: "Precision cut, styling, and lineup.",
            selected: false,
        },
    );
    out.push(
        ServiceOption {
            name: "Fade & Line-Up",
            duration: "35 min",
            description: "Skin fade with sharp finishing touches.",
            selected: false,
        },
    );
    out.push(
        ServiceOption {
            name: "Beard Sculpt",
            duration: "25 min",
            description: "Shape, trim, and conditioning for the beard.",
            selected: false,
        },
    );
    out.push(
        ServiceOption {
            name: "Full Grooming",
            duration: "60 min",
            description: "Cut, beard, and grooming refresh.",
            selected: false,
        },
    );
    out
}

} // verus!
