use vstd::prelude::*;

verus! {

/// What the service answers to a created or updated record.
#[derive(Debug)]
pub struct RecordReceipt {
    pub request_id: String,
    pub record_id: String,
}

/// One DNS record as the service lists it.
#[derive(Debug)]
pub struct DnsRecord {
    pub rr: String,
    pub line: String,
    pub status: String,
    pub locked: bool,
    pub record_type: String,
    pub domain_name: String,
    pub value: String,
    pub record_id: String,
    pub ttl: u32,
}

/// What the service answers to a listing of a domain's records.
#[derive(Debug)]
pub struct RecordListing {
    pub total_count: u32,
    pub request_id: String,
    pub page_size: u32,
    pub records: Vec<DnsRecord>,
}

pub open spec fn digit_char(d: nat) -> char {
    seq!['0', '1', '2', '3', '4', '5', '6', '7', '8', '9'][d as int]
}

/// The decimal digits of `n`, most significant first, without leading zeros.
pub open spec fn decimal_spec(n: nat) -> Seq<char>
    decreases n,
{
    if n < 10 {
        seq![digit_char(n)]
    } else {
        decimal_spec(n / 10) + seq![digit_char(n % 10)]
    }
}

fn digit_str(d: u64) -> (r: &'static str)
    requires
        d < 10,
    ensures
        r@ == seq![digit_char(d as nat)],
{
    match d {
        0 => { proof { reveal_strlit("0"); } "0" },
        1 => { proof { reveal_strlit("1"); } "1" },
        2 => { proof { reveal_strlit("2"); } "2" },
        3 => { proof { reveal_strlit("3"); } "3" },
        4 => { proof { reveal_strlit("4"); } "4" },
        5 => { proof { reveal_strlit("5"); } "5" },
        6 => { proof { reveal_strlit("6"); } "6" },
        7 => { proof { reveal_strlit("7"); } "7" },
        8 => { proof { reveal_strlit("8"); } "8" },
        _ => { proof { reveal_strlit("9"); } "9" },
    }
}

/// Writes `n` in decimal.
pub fn decimal(n: u64) -> (r: String)
    ensures
        r@ == decimal_spec(n as nat),
    decreases n,
{
    if n < 10 {
        String::from_str(digit_str(n))
    } else {
        let mut s = decimal(n / 10);
        s.append(digit_str(n % 10));
        s
    }
}

pub open spec fn receipt_text(r: RecordReceipt) -> Seq<char> {
    "record "@ + r.record_id@ + " (request "@ + r.request_id@ + ")"@
}

/// The line shown for a created or updated record.
pub fn render_receipt(r: &RecordReceipt) -> (s: String)
    ensures
        s@ == receipt_text(*r),
{
    let mut s = String::from_str("record ");
    s.append(r.record_id.as_str());
    s.append(" (request ");
    s.append(r.request_id.as_str());
    s.append(")");
    s
}

pub open spec fn record_line(rec: DnsRecord) -> Seq<char> {
    rec.record_id@ + " "@ + rec.rr@ + " "@ + rec.record_type@ + " "@ + rec.value@ + " ttl "@
        + decimal_spec(rec.ttl as nat) + "\n"@
}

/// One line per record, in the order given.
pub open spec fn record_lines(rs: Seq<DnsRecord>) -> Seq<char>
    decreases rs.len(),
{
    if rs.len() == 0 {
        Seq::empty()
    } else {
        record_lines(rs.drop_last()) + record_line(rs.last())
    }
}

pub open spec fn listing_text(l: RecordListing) -> Seq<char> {
    decimal_spec(l.records@.len()) + " records\n"@ + record_lines(l.records@)
}

/// The line shown for one listed record.
pub fn render_record(rec: &DnsRecord) -> (s: String)
    ensures
        s@ == record_line(*rec),
{
    let mut s = rec.record_id.clone();
    s.append(" ");
    s.append(rec.rr.as_str());
    s.append(" ");
    s.append(rec.record_type.as_str());
    s.append(" ");
    s.append(rec.value.as_str());
    s.append(" ttl ");
    let t = decimal(rec.ttl as u64);
    s.append(t.as_str());
    s.append("\n");
    s
}

/// The text shown for a listing: how many records came back, then each of
/// them in the order the service gave.
pub fn render_listing(l: &RecordListing) -> (s: String)
    ensures
        s@ == listing_text(*l),
        l.records@.len() == 0 ==> s@ == seq!['0'] + " records\n"@,
{
    let n = l.records.len();
    let mut s = decimal(n as u64);
    s.append(" records\n");
    let ghost header = s@;
    let mut i: usize = 0;
    while i < n
        invariant
            n == l.records@.len(),
            i <= n,
            header == decimal_spec(n as nat) + " records\n"@,
            s@ == header + record_lines(l.records@.take(i as int)),
        decreases n - i,
    {
        let line = render_record(&l.records[i]);
        s.append(line.as_str());
        proof {
            let rs = l.records@.take(i as int + 1);
            assert(rs.drop_last() =~= l.records@.take(i as int));
            assert(rs.last() == l.records@[i as int]);
        }
        i = i + 1;
    }
    proof {
        assert(l.records@.take(n as int) =~= l.records@);
        if n == 0 {
            assert(decimal_spec(0) == seq!['0']);
        }
    }
    s
}

} // verus!
