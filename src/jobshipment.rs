//! Job number (seven digits and a structure letter) with a shipment number,
//! written `1234567A-12`.

use vstd::prelude::*;

use crate::query::{digits_at, is_alpha};
use crate::text::{all_digits, chars_of, dec, parse_u32, push_char, push_dec, string_of, value_of};

verus! {

/// `u` is `c` in upper case, for an ASCII letter or digit `c`.
pub open spec fn upper_of(u: char, c: char) -> bool {
    if 'a' <= c <= 'z' {
        u as u32 == c as u32 - 32
    } else {
        u == c
    }
}

/// The whole of `s` is seven digits, a letter, `-` and one or more digits.
pub open spec fn job_shipment_shape(s: Seq<char>) -> bool {
    &&& s.len() >= 10
    &&& digits_at(s, 0, 7)
    &&& is_alpha(s[7])
    &&& s[8] == '-'
    &&& all_digits(s.skip(9))
}

#[derive(Debug, Clone, Copy, PartialEq, Eq, Structural)]
pub enum JobShipmentParseError {
    /// The shipment does not fit a `u32`.
    InvalidShipment,
    /// The text is not seven digits, a letter, `-` and digits.
    ExpectedPatternMismatch,
}

impl JobShipmentParseError {
    pub open spec fn message_spec(self) -> Seq<char> {
        match self {
            JobShipmentParseError::InvalidShipment => "shipment is expected to be a number"@,
            JobShipmentParseError::ExpectedPatternMismatch => "job-shipment does not match expected pattern"@,
        }
    }

    /// The error in words.
    pub fn message(&self) -> (r: &'static str)
        ensures
            r@ == self.message_spec(),
    {
        match self {
            JobShipmentParseError::InvalidShipment => "shipment is expected to be a number",
            JobShipmentParseError::ExpectedPatternMismatch => "job-shipment does not match expected pattern",
        }
    }
}

/// Job number (with structure letter) and shipment.
#[derive(Debug)]
pub struct JobShipment {
    job: String,
    shipment: u32,
}

impl JobShipment {
    pub closed spec fn job_spec(&self) -> Seq<char> {
        self.job@
    }

    pub closed spec fn shipment_spec(&self) -> u32 {
        self.shipment
    }

    /// The job number, its letter in upper case.
    pub fn job(&self) -> (r: &String)
        ensures
            r@ == self.job_spec(),
    {
        &self.job
    }

    pub fn shipment(&self) -> (r: u32)
        ensures
            r == self.shipment_spec(),
    {
        self.shipment
    }

    /// Reads `1234567a-12`: the job's letter is kept in upper case.
    pub fn from_str(value: &str) -> (r: Result<JobShipment, JobShipmentParseError>)
        ensures
            !job_shipment_shape(value@) ==> r == Err::<JobShipment, JobShipmentParseError>(
                JobShipmentParseError::ExpectedPatternMismatch,
            ),
            job_shipment_shape(value@) && value_of(value@.skip(9)) > u32::MAX ==> r == Err::<
                JobShipment,
                JobShipmentParseError,
            >(JobShipmentParseError::InvalidShipment),
            job_shipment_shape(value@) && value_of(value@.skip(9)) <= u32::MAX ==> r is Ok,
            r matches Ok(j) ==> {
                &&& j.shipment_spec() == value_of(value@.skip(9))
                &&& j.job_spec().len() == 8
                &&& forall|k: int| 0 <= k < 8 ==> upper_of(#[trigger] j.job_spec()[k], value@[k])
            },
    {
        let s = chars_of(value);
        if !shape_exec(&s) {
            return Err(JobShipmentParseError::ExpectedPatternMismatch);
        }
        assert(s@.subrange(9, s@.len() as int) == s@.skip(9));
        match parse_u32(&s, 9, s.len()) {
            None => Err(JobShipmentParseError::InvalidShipment),
            Some(shipment) => {
                let mut job: Vec<char> = Vec::new();
                for k in 0..8
                    invariant
                        s@.len() >= 10,
                        job_shipment_shape(s@),
                        job@.len() == k,
                        forall|m: int| 0 <= m < k ==> upper_of(#[trigger] job@[m], s@[m]),
                {
                    let c = s[k];
                    if 'a' <= c && c <= 'z' {
                        let u = ((c as u8) - 32) as char;
                        assert(u as u32 == c as u32 - 32);
                        job.push(u);
                    } else {
                        job.push(c);
                    }
                }
                Ok(JobShipment { job: string_of(&job), shipment })
            },
        }
    }

    /// `{job}-{shipment}`.
    pub fn to_string(&self) -> (r: String)
        ensures
            r@ == self.job_spec() + seq!['-'] + dec(self.shipment_spec() as nat),
    {
        let mut r = self.job.clone();
        push_char(&mut r, '-');
        push_dec(&mut r, self.shipment as u64);
        r
    }
}

fn shape_exec(s: &Vec<char>) -> (r: bool)
    ensures
        r == job_shipment_shape(s@),
{
    if s.len() < 10 {
        return false;
    }
    let mut k: usize = 0;
    while k < 7
        invariant
            s.len() >= 10,
            k <= 7,
            forall|m: int| 0 <= m < k ==> crate::query::is_digit(#[trigger] s@[0 + m]),
        decreases 7 - k,
    {
        if !('0' <= s[k] && s[k] <= '9') {
            assert(!crate::query::is_digit(s@[0 + k as int]));
            return false;
        }
        k = k + 1;
    }
    let c = s[7];
    if !(('a' <= c && c <= 'z') || ('A' <= c && c <= 'Z')) || s[8] != '-' {
        return false;
    }
    let mut i: usize = 9;
    while i < s.len()
        invariant
            9 <= i <= s.len(),
            forall|m: int| 9 <= m < i ==> '0' <= #[trigger] s@[m] <= '9',
        decreases s.len() - i,
    {
        if !('0' <= s[i] && s[i] <= '9') {
            assert(s@.skip(9)[i - 9] == s@[i as int]);
            return false;
        }
        i = i + 1;
    }
    assert forall|m: int| 0 <= m < s@.skip(9).len() implies '0' <= #[trigger] s@.skip(9)[m] <= '9' by {
        assert(s@.skip(9)[m] == s@[m + 9]);
    }
    true
}

} // verus!
