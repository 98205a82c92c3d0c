use vstd::prelude::*;

verus! {

/// One row of the user table.
pub struct UserRecord {
    pub identity_id: String,
    pub serial_number: String,
    pub device_name: Option<String>,
    pub device_owner: Option<String>,
    pub email: String,
    pub password_hash: Option<String>,
    pub created_at: String,
}

/// A column of the user table together with a value to look for in it.
pub enum WLdbKeyword {
    SerialNumber(String),
    Email(String),
    DeviceName(String),
    DeviceOwner(String),
    UUID(String),
}

pub open spec fn opt_is(o: Option<String>, v: Seq<char>) -> bool {
    match o {
        Some(s) => s@ == v,
        None => false,
    }
}

/// The record holds the keyword's value in the keyword's column.
pub open spec fn has_keyword(r: UserRecord, k: WLdbKeyword) -> bool {
    match k {
        WLdbKeyword::SerialNumber(v) => r.serial_number@ == v@,
        WLdbKeyword::Email(v) => r.email@ == v@,
        WLdbKeyword::DeviceName(v) => opt_is(r.device_name, v@),
        WLdbKeyword::DeviceOwner(v) => opt_is(r.device_owner, v@),
        WLdbKeyword::UUID(v) => r.identity_id@ == v@,
    }
}

/// Two records that may not both be in the table: they share a serial
/// number, an email or an identity.
pub open spec fn clashes(a: UserRecord, b: UserRecord) -> bool {
    a.serial_number@ == b.serial_number@ || a.email@ == b.email@ || a.identity_id@
        == b.identity_id@
}

/// Some row of `rows` clashes with `r`.
pub open spec fn clashes_any(rows: Seq<UserRecord>, r: UserRecord) -> bool {
    exists|i: int| 0 <= i < rows.len() && clashes(#[trigger] rows[i], r)
}

/// The unique constraints of the table: no two rows clash.
pub open spec fn unique_rows(rows: Seq<UserRecord>) -> bool {
    forall|i: int, j: int| 0 <= i < j < rows.len() ==> !clashes(#[trigger] rows[i], #[trigger] rows[j])
}

/// Some row of `rows` holds the keyword.
pub open spec fn keyword_in(rows: Seq<UserRecord>, k: WLdbKeyword) -> bool {
    exists|i: int| 0 <= i < rows.len() && has_keyword(#[trigger] rows[i], k)
}

fn opt_equals(o: &Option<String>, v: &String) -> (b: bool)
    ensures
        b == opt_is(*o, v@),
{
    match o {
        Some(s) => *s == *v,
        None => false,
    }
}

impl UserRecord {
    pub fn has_keyword(&self, k: &WLdbKeyword) -> (b: bool)
        ensures
            b == has_keyword(*self, *k),
    {
        match k {
            WLdbKeyword::SerialNumber(v) => self.serial_number == *v,
            WLdbKeyword::Email(v) => self.email == *v,
            WLdbKeyword::DeviceName(v) => opt_equals(&self.device_name, v),
            WLdbKeyword::DeviceOwner(v) => opt_equals(&self.device_owner, v),
            WLdbKeyword::UUID(v) => self.identity_id == *v,
        }
    }

    pub fn clashes_with(&self, other: &UserRecord) -> (b: bool)
        ensures
            b == clashes(*self, *other),
    {
        self.serial_number == other.serial_number || self.email == other.email
            || self.identity_id == other.identity_id
    }
}

} // verus!
