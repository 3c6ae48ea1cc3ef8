use vstd::prelude::*;

verus! {

/// The decimal digit character for a value below ten.
pub open spec fn dec_digit(d: int) -> char {
    if d == 0 {
        '0'
    } else if d == 1 {
        '1'
    } else if d == 2 {
        '2'
    } else if d == 3 {
        '3'
    } else if d == 4 {
        '4'
    } else if d == 5 {
        '5'
    } else if d == 6 {
        '6'
    } else if d == 7 {
        '7'
    } else if d == 8 {
        '8'
    } else {
        '9'
    }
}

/// The decimal text of a non-negative integer, most significant digit
/// first, without leading zeros (a single zero for zero).
pub open spec fn dec_str(n: int) -> Seq<char>
    decreases n,
{
    if n < 10 {
        seq![dec_digit(n)]
    } else {
        dec_str(n / 10) + seq![dec_digit(n % 10)]
    }
}

/// Appends one decimal digit character.
fn push_digit(out: &mut String, d: u8)
    requires
        d < 10,
    ensures
        final(out)@ == old(out)@ + seq![dec_digit(d as int)],
{
    let piece: &str = match d {
        0 => "0",
        1 => "1",
        2 => "2",
        3 => "3",
        4 => "4",
        5 => "5",
        6 => "6",
        7 => "7",
        8 => "8",
        _ => "9",
    };
    proof {
        reveal_strlit("0");
        reveal_strlit("1");
        reveal_strlit("2");
        reveal_strlit("3");
        reveal_strlit("4");
        reveal_strlit("5");
        reveal_strlit("6");
        reveal_strlit("7");
        reveal_strlit("8");
        reveal_strlit("9");
    }
    out.append(piece);
    proof {
        assert(final(out)@ =~= old(out)@ + seq![dec_digit(d as int)]);
    }
}

/// Appends the decimal text of `n`.
fn append_decimal(out: &mut String, n: u64)
    ensures
        final(out)@ == old(out)@ + dec_str(n as int),
    decreases n,
{
    if n >= 10 {
        append_decimal(out, n / 10);
        push_digit(out, (n % 10) as u8);
        proof {
            assert(final(out)@ =~= old(out)@ + dec_str(n as int));
        }
    } else {
        push_digit(out, n as u8);
    }
}

/// Renders a non-negative integer as decimal text.
pub fn u64_to_string(n: u64) -> (r: String)
    ensures
        r@ == dec_str(n as int),
{
    let mut out = String::new();
    append_decimal(&mut out, n);
    proof {
        assert(out@ =~= dec_str(n as int));
    }
    out
}

/// The items of a JSON array of byte values, comma separated.
pub open spec fn bytes_json_items(b: Seq<u8>) -> Seq<char>
    decreases b.len(),
{
    if b.len() == 0 {
        Seq::empty()
    } else if b.len() == 1 {
        dec_str(b[0] as int)
    } else {
        bytes_json_items(b.drop_last()) + seq![','] + dec_str(b.last() as int)
    }
}

/// A byte string as a JSON array of numbers.
pub open spec fn bytes_json(b: Seq<u8>) -> Seq<char> {
    seq!['['] + bytes_json_items(b) + seq![']']
}

/// Appends a byte string as a JSON array of numbers.
fn append_bytes_json(out: &mut String, b: &[u8])
    ensures
        final(out)@ == old(out)@ + bytes_json(b@),
{
    out.append("[");
    proof {
        reveal_strlit("[");
        reveal_strlit("]");
        reveal_strlit(",");
        assert(out@ =~= old(out)@ + seq!['[']);
    }
    let ghost base = out@;
    let mut i: usize = 0;
    while i < b.len()
        invariant
            i <= b@.len(),
            out@ =~= base + bytes_json_items(b@.subrange(0, i as int)),
        decreases b@.len() - i,
    {
        if i > 0 {
            out.append(",");
            proof {
                reveal_strlit(",");
            }
        }
        append_decimal(out, b[i] as u64);
        proof {
            let prefix = b@.subrange(0, i as int);
            let prefix1 = b@.subrange(0, i + 1 as int);
            assert(prefix1.drop_last() =~= prefix);
            assert(prefix1.last() == b@[i as int]);
            if i == 0 {
                assert(prefix1.len() == 1);
                assert(bytes_json_items(prefix1) =~= dec_str(b@[0] as int));
            }
            assert(out@ =~= base + bytes_json_items(prefix1));
        }
        i = i + 1;
    }
    proof {
        assert(b@.subrange(0, b@.len() as int) =~= b@);
    }
    out.append("]");
    proof {
        reveal_strlit("]");
        assert(out@ =~= old(out)@ + bytes_json(b@));
    }
}

/// Renders a byte string as a JSON array of numbers.
pub fn bytes_to_json(b: &[u8]) -> (r: String)
    ensures
        r@ == bytes_json(b@),
{
    let mut out = String::new();
    append_bytes_json(&mut out, b);
    proof {
        assert(out@ =~= bytes_json(b@));
    }
    out
}

/// One member of a group's membership list, as the plain values the
/// JSON rendering needs: the leaf index, the decoded identity bytes, and
/// the raw signature public key.
pub struct MemberRow {
    pub index: u32,
    pub identity: Vec<u8>,
    pub signature_key: Vec<u8>,
}

impl MemberRow {
    /// The view of a row: index, identity bytes, signature key bytes.
    pub open spec fn view_triple(&self) -> (u32, Seq<u8>, Seq<u8>) {
        (self.index, self.identity@, self.signature_key@)
    }
}

/// One membership row as a JSON object, keys in serde_json's sorted
/// order.
pub open spec fn member_json(row: (u32, Seq<u8>, Seq<u8>)) -> Seq<char> {
    "{\"identity\":"@ + bytes_json(row.1) + ",\"index\":"@ + dec_str(row.0 as int)
        + ",\"signature_key\":"@ + bytes_json(row.2) + "}"@
}

/// The items of the membership array, comma separated.
pub open spec fn members_json_items(rows: Seq<(u32, Seq<u8>, Seq<u8>)>) -> Seq<char>
    decreases rows.len(),
{
    if rows.len() == 0 {
        Seq::empty()
    } else if rows.len() == 1 {
        member_json(rows[0])
    } else {
        members_json_items(rows.drop_last()) + seq![','] + member_json(rows.last())
    }
}

/// A membership list as a JSON array of objects.
pub open spec fn members_json(rows: Seq<(u32, Seq<u8>, Seq<u8>)>) -> Seq<char> {
    seq!['['] + members_json_items(rows) + seq![']']
}

/// Appends one membership row as a JSON object.
fn append_member_json(out: &mut String, row: &MemberRow)
    ensures
        final(out)@ == old(out)@ + member_json(row.view_triple()),
{
    out.append("{\"identity\":");
    append_bytes_json(out, row.identity.as_slice());
    out.append(",\"index\":");
    append_decimal(out, row.index as u64);
    out.append(",\"signature_key\":");
    append_bytes_json(out, row.signature_key.as_slice());
    out.append("}");
    proof {
        assert(final(out)@ =~= old(out)@ + member_json(row.view_triple()));
    }
}

/// Renders a membership list as the JSON that `get_members` reports:
/// an array of objects with the leaf index, the identity bytes and the
/// signature key bytes.
pub fn members_to_json(rows: &Vec<MemberRow>) -> (r: String)
    ensures
        r@ == members_json(Seq::new(rows@.len(), |i: int| rows@[i].view_triple())),
{
    let ghost triples = Seq::new(rows@.len(), |i: int| rows@[i].view_triple());
    let mut out = String::new();
    out.append("[");
    proof {
        reveal_strlit("[");
        reveal_strlit("]");
        reveal_strlit(",");
        assert(out@ =~= seq!['[']);
    }
    let ghost base = out@;
    let mut i: usize = 0;
    while i < rows.len()
        invariant
            i <= rows@.len(),
            base == seq!['['],
            triples == Seq::new(rows@.len(), |j: int| rows@[j].view_triple()),
            out@ =~= base + members_json_items(triples.subrange(0, i as int)),
        decreases rows@.len() - i,
    {
        if i > 0 {
            out.append(",");
            proof {
                reveal_strlit(",");
            }
        }
        append_member_json(&mut out, &rows[i]);
        proof {
            let prefix = triples.subrange(0, i as int);
            let prefix1 = triples.subrange(0, i + 1 as int);
            assert(prefix1.drop_last() =~= prefix);
            assert(prefix1.last() == triples[i as int]);
            if i == 0 {
                assert(prefix1.len() == 1);
                assert(members_json_items(prefix1) =~= member_json(triples[0]));
            }
            assert(out@ =~= base + members_json_items(prefix1));
        }
        i = i + 1;
    }
    proof {
        assert(triples.subrange(0, triples.len() as int) =~= triples);
    }
    out.append("]");
    proof {
        reveal_strlit("]");
        assert(out@ =~= members_json(triples));
    }
    out
}

} // verus!
