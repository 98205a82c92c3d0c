use vstd::prelude::*;

use crate::models::WLDeviceResponse;
use crate::records::{
    clashes, clashes_any, has_keyword, keyword_in, unique_rows, UserRecord, WLdbKeyword,
};

verus! {

/// Why the table refused a write.
#[derive(Debug, Clone, Copy)]
pub enum StoreError {
    /// A unique constraint (serial number, email or identity) would break.
    Conflict,
    /// The transaction already stages a record.
    TransactionFull,
}

/// The user table: committed records only, in the order they were committed.
pub struct Database {
    rows: Vec<UserRecord>,
}

/// An atomic unit of work that stages one new record. Nothing it stages is
/// visible in the table until it is committed; dropping it rolls it back.
pub struct Transaction {
    pending: Option<UserRecord>,
}

/// Text of an optional column, the empty text where it is unset.
pub open spec fn text_or_empty(o: Option<String>) -> Seq<char> {
    match o {
        Some(s) => s@,
        None => Seq::empty(),
    }
}

/// `r` with the owner's name and the password hash set.
pub open spec fn with_credentials(r: UserRecord, owner: String, hash: String) -> UserRecord {
    UserRecord { device_owner: Some(owner), password_hash: Some(hash), ..r }
}

/// `r` with the device name set.
pub open spec fn with_device_name(r: UserRecord, name: String) -> UserRecord {
    UserRecord { device_name: Some(name), ..r }
}

impl View for Database {
    type V = Seq<UserRecord>;

    closed spec fn view(&self) -> Seq<UserRecord> {
        self.rows@
    }
}

impl Database {
    /// The unique constraints hold.
    pub open spec fn wf(&self) -> bool {
        unique_rows(self@)
    }

    pub fn new() -> (db: Database)
        ensures
            db@ == Seq::<UserRecord>::empty(),
            db.wf(),
    {
        Database { rows: Vec::new() }
    }

    pub fn row_count(&self) -> (n: usize)
        ensures
            n == self@.len(),
    {
        self.rows.len()
    }

    /// Whether a committed record holds the keyword's value in its column.
    pub fn keyword_exists(&self, keyword: WLdbKeyword) -> (r: bool)
        ensures
            r == keyword_in(self@, keyword),
    {
        let mut i: usize = 0;
        while i < self.rows.len()
            invariant
                i <= self.rows@.len(),
                forall|j: int| 0 <= j < i ==> !has_keyword(#[trigger] self.rows@[j], keyword),
            decreases self.rows@.len() - i,
        {
            if self.rows[i].has_keyword(&keyword) {
                return true;
            }
            i = i + 1;
        }
        false
    }

    fn clashes_any_row(&self, rec: &UserRecord) -> (b: bool)
        ensures
            b == clashes_any(self@, *rec),
    {
        let mut i: usize = 0;
        while i < self.rows.len()
            invariant
                i <= self.rows@.len(),
                forall|j: int| 0 <= j < i ==> !clashes(#[trigger] self.rows@[j], *rec),
            decreases self.rows@.len() - i,
        {
            if self.rows[i].clashes_with(rec) {
                return true;
            }
            i = i + 1;
        }
        false
    }

    /// Adds a record that is already durable elsewhere, under the unique
    /// constraints.
    pub fn load_row(&mut self, rec: UserRecord) -> (r: Result<(), StoreError>)
        requires
            old(self).wf(),
        ensures
            final(self).wf(),
            r is Err <==> clashes_any(old(self)@, rec),
            r is Ok ==> final(self)@ == old(self)@.push(rec),
            r is Err ==> (r matches Err(StoreError::Conflict)) && final(self)@ == old(self)@,
    {
        if self.clashes_any_row(&rec) {
            return Err(StoreError::Conflict);
        }
        self.push_row(rec);
        Ok(())
    }

    fn push_row(&mut self, rec: UserRecord)
        requires
            old(self).wf(),
            !clashes_any(old(self)@, rec),
        ensures
            final(self).wf(),
            final(self)@ == old(self)@.push(rec),
    {
        self.rows.push(rec);
        proof {
            let s = self.rows@;
            assert forall|i: int, j: int| 0 <= i < j < s.len() implies !clashes(
                #[trigger] s[i],
                #[trigger] s[j],
            ) by {
                if j == s.len() - 1 {
                    if clashes(s[i], s[j]) {
                        assert(clashes(old(self).rows@[i], rec));
                    }
                } else {
                    assert(s[i] == old(self).rows@[i] && s[j] == old(self).rows@[j]);
                }
            }
        }
    }

    /// Opens an atomic unit over the table.
    pub fn start_transaction(&self) -> (tx: Transaction)
        ensures
            tx.pending() is None,
    {
        Transaction { pending: None }
    }

    /// Makes what the transaction staged visible, unless that would break a
    /// unique constraint, in which case the table is left as it was.
    pub fn commit_transaction(&mut self, tx: Transaction) -> (r: Result<(), StoreError>)
        requires
            old(self).wf(),
        ensures
            final(self).wf(),
            tx.pending() is None ==> r is Ok && final(self)@ == old(self)@,
            tx.pending() matches Some(rec) ==> {
                &&& clashes_any(old(self)@, rec) ==> (r matches Err(StoreError::Conflict)) && final(self)@ == old(self)@
                &&& !clashes_any(old(self)@, rec) ==> r is Ok && final(self)@ == old(self)@.push(
                    rec,
                )
            },
    {
        match tx.pending {
            None => Ok(()),
            Some(rec) => self.load_row(rec),
        }
    }

    /// The owner and name of the device with this serial number.
    pub fn lookup_device(&self, serial_number: &String) -> (r: Option<WLDeviceResponse>)
        requires
            self.wf(),
        ensures
            r is None <==> !keyword_in(self@, WLdbKeyword::SerialNumber(*serial_number)),
            r matches Some(d) ==> exists|i: int|
                0 <= i < self@.len() && (#[trigger] self@[i]).serial_number@ == serial_number@
                    && d.device_owner@ == text_or_empty(self@[i].device_owner)
                    && d.device_name@ == text_or_empty(self@[i].device_name),
    {
        let mut i: usize = 0;
        while i < self.rows.len()
            invariant
                i <= self.rows@.len(),
                forall|j: int|
                    0 <= j < i ==> (#[trigger] self.rows@[j]).serial_number@ != serial_number@,
            decreases self.rows@.len() - i,
        {
            let row = &self.rows[i];
            if row.serial_number == *serial_number {
                let device_owner = text_of(&row.device_owner);
                let device_name = text_of(&row.device_name);
                return Some(WLDeviceResponse { device_owner, device_name });
            }
            i = i + 1;
        }
        proof {
            if keyword_in(self@, WLdbKeyword::SerialNumber(*serial_number)) {
                let j = choose|j: int|
                    0 <= j < self@.len() && has_keyword(
                        #[trigger] self@[j],
                        WLdbKeyword::SerialNumber(*serial_number),
                    );
                assert(self.rows@[j].serial_number@ == serial_number@);
            }
        }
        None
    }

    /// The position of the record with this email.
    pub fn find_by_email(&self, email: &String) -> (r: Option<usize>)
        ensures
            r is None <==> !keyword_in(self@, WLdbKeyword::Email(*email)),
            r matches Some(i) ==> i < self@.len() && self@[i as int].email@ == email@,
    {
        let mut i: usize = 0;
        while i < self.rows.len()
            invariant
                i <= self.rows@.len(),
                forall|j: int| 0 <= j < i ==> (#[trigger] self.rows@[j]).email@ != email@,
            decreases self.rows@.len() - i,
        {
            if self.rows[i].email == *email {
                return Some(i);
            }
            i = i + 1;
        }
        proof {
            if keyword_in(self@, WLdbKeyword::Email(*email)) {
                let j = choose|j: int|
                    0 <= j < self@.len() && has_keyword(
                        #[trigger] self@[j],
                        WLdbKeyword::Email(*email),
                    );
                assert(self.rows@[j].email@ == email@);
            }
        }
        None
    }

    /// The committed record at position `i`.
    pub fn record(&self, i: usize) -> (r: &UserRecord)
        requires
            i < self@.len(),
        ensures
            *r == self@[i as int],
    {
        &self.rows[i]
    }
}

fn text_of(o: &Option<String>) -> (s: String)
    ensures
        s@ == text_or_empty(*o),
{
    match o {
        Some(v) => v.clone(),
        None => String::new(),
    }
}

impl Transaction {
    /// The record staged so far.
    pub closed spec fn pending(&self) -> Option<UserRecord> {
        self.pending
    }

    /// Stages a new record; refused where it would clash with a committed
    /// one.
    pub fn insert(&mut self, db: &Database, rec: UserRecord) -> (r: Result<(), StoreError>)
        ensures
            old(self).pending() is Some ==> (r matches Err(StoreError::TransactionFull)),
            old(self).pending() is None && clashes_any(db@, rec) ==> (r matches Err(StoreError::Conflict)),
            old(self).pending() is None && !clashes_any(db@, rec) ==> r is Ok,
            r is Ok ==> final(self).pending() == Some(rec),
            r is Err ==> final(self).pending() == old(self).pending(),
    {
        if self.pending.is_some() {
            return Err(StoreError::TransactionFull);
        }
        if db.clashes_any_row(&rec) {
            return Err(StoreError::Conflict);
        }
        self.pending = Some(rec);
        Ok(())
    }

    /// Sets owner and password hash on the staged record with this identity.
    pub fn set_credentials(&mut self, identity_id: &String, owner: String, hash: String)
        ensures
            final(self).pending() == match old(self).pending() {
                Some(r) => if r.identity_id@ == identity_id@ {
                    Some(with_credentials(r, owner, hash))
                } else {
                    Some(r)
                },
                None => None,
            },
    {
        match self.pending.take() {
            Some(r) => {
                if r.identity_id == *identity_id {
                    self.pending = Some(
                        UserRecord { device_owner: Some(owner), password_hash: Some(hash), ..r },
                    );
                } else {
                    self.pending = Some(r);
                }
            },
            None => {},
        }
    }

    /// Sets the device name on the staged record with this identity.
    pub fn set_device_name(&mut self, identity_id: &String, name: String)
        ensures
            final(self).pending() == match old(self).pending() {
                Some(r) => if r.identity_id@ == identity_id@ {
                    Some(with_device_name(r, name))
                } else {
                    Some(r)
                },
                None => None,
            },
    {
        match self.pending.take() {
            Some(r) => {
                if r.identity_id == *identity_id {
                    self.pending = Some(UserRecord { device_name: Some(name), ..r });
                } else {
                    self.pending = Some(r);
                }
            },
            None => {},
        }
    }

    /// Discards everything staged.
    pub fn rollback(self) {
    }
}

} // verus!
