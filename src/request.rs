use vstd::prelude::*;
use vstd::string::StringSliceAdditionalSpecFns;

use crate::error::Error;
use crate::flags::{flags_are_up, spec_flags_are_up};

verus! {

/// Size of the name field of a request record, terminating NUL included.
pub const NAME_FIELD_LEN: usize = 16;

/// A name fits the field when it holds no NUL byte and leaves room for the
/// terminating one.
pub open spec fn valid_name(name: Seq<u8>) -> bool {
    name.len() < NAME_FIELD_LEN && forall|i: int| 0 <= i < name.len() ==> name[i] != 0u8
}

/// The name field that holds `name`: its bytes, then zeros up to the size of
/// the field.
pub open spec fn encoded_name(name: Seq<u8>) -> Seq<u8> {
    name + Seq::new((NAME_FIELD_LEN - name.len()) as nat, |i: int| 0u8)
}

/// The name that a field holds: its bytes up to the first NUL.
pub open spec fn name_in_field(field: Seq<u8>) -> Seq<u8>
    decreases field.len(),
{
    if field.len() == 0 || field[0] == 0u8 {
        Seq::empty()
    } else {
        seq![field[0]] + name_in_field(field.drop_first())
    }
}

/// Reading the name back out of the field that was made from it gives the
/// name unchanged, for every name that fits.
pub proof fn lemma_name_round_trip(name: Seq<u8>)
    requires
        valid_name(name),
    ensures
        name_in_field(encoded_name(name)) == name,
{
    lemma_name_before_nul(name, Seq::new((NAME_FIELD_LEN - name.len()) as nat, |i: int| 0u8));
}

proof fn lemma_name_before_nul(name: Seq<u8>, rest: Seq<u8>)
    requires
        forall|i: int| 0 <= i < name.len() ==> name[i] != 0u8,
        rest.len() == 0 || rest[0] == 0u8,
    ensures
        name_in_field(name + rest) == name,
    decreases name.len(),
{
    if name.len() == 0 {
        assert(name + rest == rest);
    } else {
        assert((name + rest).drop_first() == name.drop_first() + rest);
        lemma_name_before_nul(name.drop_first(), rest);
        assert(name == seq![name[0]] + name.drop_first());
    }
}

/// Relies on ifstructs::ifreq::from_name: it fails when the name holds a NUL
/// byte or when the name and its NUL do not fit the IFNAMSIZ-byte (16) name
/// field; otherwise it copies the name's bytes and a NUL into a zeroed record.
#[verifier::external_body]
fn request_name_field(name: &str) -> (r: Option<Vec<u8>>)
    ensures
        r.is_some() == valid_name(name.spec_bytes()),
        r matches Some(field) ==> field@ == encoded_name(name.spec_bytes()),
{
    match ifstructs::ifreq::from_name(name) {
        Ok(req) => Some(req.ifr_name.to_vec()),
        Err(_) => None,
    }
}

/// What a request record holds: the name field and the flag bits.
pub struct RequestView {
    pub name_field: Seq<u8>,
    pub flags: u16,
}

impl RequestView {
    /// The interface name that the record addresses.
    pub open spec fn name(self) -> Seq<u8> {
        name_in_field(self.name_field)
    }
}

/// A request record addressed to one interface by name, carrying its flags.
pub struct InterfaceRequest {
    name_field: Vec<u8>,
    flags: u16,
}

impl View for InterfaceRequest {
    type V = RequestView;

    closed spec fn view(&self) -> RequestView {
        RequestView { name_field: self.name_field@, flags: self.flags }
    }
}

impl InterfaceRequest {
    #[verifier::type_invariant]
    closed spec fn holds_valid_name(self) -> bool {
        valid_name(name_in_field(self.name_field@)) && self.name_field@ == encoded_name(
            name_in_field(self.name_field@),
        )
    }

    /// A fresh record addressed to `name`, with no flag set; fails with
    /// `InvalidName` when the name does not fit the field or holds a NUL byte.
    pub fn from_name(name: &str) -> (r: Result<InterfaceRequest, Error>)
        ensures
            r.is_ok() == valid_name(name.spec_bytes()),
            r matches Ok(req) ==> req@.name_field == encoded_name(name.spec_bytes())
                && req@.name() == name.spec_bytes() && req@.flags == 0,
            r matches Err(e) ==> e == Error::InvalidName,
    {
        match request_name_field(name) {
            Some(field) => {
                proof {
                    lemma_name_round_trip(name.spec_bytes());
                }
                Ok(InterfaceRequest { name_field: field, flags: 0 })
            },
            None => Err(Error::InvalidName),
        }
    }

    /// The name field as the kernel reads it.
    pub fn name_field(&self) -> (r: &Vec<u8>)
        ensures
            r@ == self@.name_field,
    {
        &self.name_field
    }

    /// The name that the record addresses, read back from its field.
    pub fn name_bytes(&self) -> (r: Vec<u8>)
        ensures
            r@ == self@.name(),
    {
        proof {
            use_type_invariant(self);
        }
        let ghost name = self@.name();
        let mut out: Vec<u8> = Vec::new();
        let mut i: usize = 0;
        while i < NAME_FIELD_LEN && self.name_field[i] != 0u8
            invariant
                valid_name(name),
                self.name_field@ == encoded_name(name),
                i <= name.len(),
                out@ == name.take(i as int),
            decreases NAME_FIELD_LEN - i,
        {
            proof {
                if i == name.len() {
                    assert(self.name_field@[i as int] == 0u8);
                }
            }
            out.push(self.name_field[i]);
            i = i + 1;
            assert(out@ == name.take(i as int));
        }
        assert(i == name.len()) by {
            if i < name.len() {
                assert(self.name_field@[i as int] == name[i as int]);
            }
        }
        assert(name.take(i as int) == name);
        out
    }

    /// The flag bits carried by the record.
    pub fn flags(&self) -> (r: u16)
        ensures
            r == self@.flags,
    {
        self.flags
    }

    /// Replaces the flag bits, keeping the name.
    pub fn set_flags(&mut self, flags: u16)
        ensures
            final(self)@.name_field == old(self)@.name_field,
            final(self)@.flags == flags,
    {
        proof {
            use_type_invariant(&*self);
        }
        self.flags = flags;
    }

    /// Sets the bits of `mask`, keeping the name and every other bit.
    pub fn insert_flags(&mut self, mask: u16)
        ensures
            final(self)@.name_field == old(self)@.name_field,
            final(self)@.flags == old(self)@.flags | mask,
    {
        proof {
            use_type_invariant(&*self);
        }
        self.flags = self.flags | mask;
    }

    /// Clears the bits of `mask`, keeping the name and every other bit.
    pub fn remove_flags(&mut self, mask: u16)
        ensures
            final(self)@.name_field == old(self)@.name_field,
            final(self)@.flags == old(self)@.flags & !mask,
    {
        proof {
            use_type_invariant(&*self);
        }
        self.flags = self.flags & !mask;
    }

    /// Whether the record's flags have both the up and the running bit.
    pub fn is_up(&self) -> (r: bool)
        ensures
            r == spec_flags_are_up(self@.flags),
    {
        flags_are_up(self.flags)
    }
}

} // verus!
