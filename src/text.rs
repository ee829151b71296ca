use vstd::prelude::*;

verus! {

/// A character with `'A'..='Z'` mapped to `'a'..='z'`.
pub open spec fn ascii_lower_char(c: char) -> char {
    if 'A' <= c && c <= 'Z' {
        ((c as u32) + 32) as char
    } else {
        c
    }
}

/// Text with every ASCII capital letter made small.
pub open spec fn ascii_lower(s: Seq<char>) -> Seq<char> {
    s.map_values(|c: char| ascii_lower_char(c))
}

/// Relies on str::to_ascii_lowercase: each of 'A'..='Z' becomes its small
/// letter, and every other character is kept in place.
#[verifier::external_body]
fn to_ascii_lowercase(s: &str) -> (r: String)
    ensures
        r@ == ascii_lower(s@),
{
    s.to_ascii_lowercase()
}

/// The table that holds records of the type named `record`: the name with
/// an `s` appended, in small ASCII letters.
pub open spec fn table_name_of(record: Seq<char>) -> Seq<char> {
    ascii_lower(record + seq!['s'])
}

/// The name of the table that stores records of the type `record`.
pub fn table_name(record: &str) -> (r: String)
    ensures
        r@ == table_name_of(record@),
{
    let mut plural = String::from_str(record);
    plural.append("s");
    proof {
        reveal_strlit("s");
    }
    assert(plural@ =~= record@ + seq!['s']);
    to_ascii_lowercase(plural.as_str())
}

/// The text of each string.
pub open spec fn texts(v: Seq<String>) -> Seq<Seq<char>> {
    v.map_values(|s: String| s@)
}

/// The items one after another, with `", "` between each two.
pub open spec fn comma_list(items: Seq<Seq<char>>) -> Seq<char>
    decreases items.len(),
{
    if items.len() == 0 {
        Seq::empty()
    } else if items.len() == 1 {
        items[0]
    } else {
        comma_list(items.drop_last()) + ", "@ + items.last()
    }
}

proof fn lemma_comma_list_take(items: Seq<Seq<char>>, i: int)
    requires
        0 <= i < items.len(),
    ensures
        comma_list(items.take(i + 1)) == if i == 0 {
            items[0]
        } else {
            comma_list(items.take(i)) + ", "@ + items[i]
        },
{
    assert(items.take(i + 1).drop_last() =~= items.take(i));
}

/// Appends the items to `r`, separated by commas.
pub fn append_comma_list(r: &mut String, items: &Vec<String>)
    ensures
        final(r)@ == old(r)@ + comma_list(texts(items@)),
{
    let ghost start = r@;
    let ghost all = texts(items@);
    let mut i: usize = 0;
    while i < items.len()
        invariant
            i <= items.len(),
            all == texts(items@),
            r@ == start + comma_list(all.take(i as int)),
        decreases items.len() - i,
    {
        proof {
            lemma_comma_list_take(all, i as int);
        }
        if i > 0 {
            r.append(", ");
        }
        r.append(items[i].as_str());
        assert(r@ =~= start + comma_list(all.take(i + 1)));
        i = i + 1;
    }
    assert(all.take(items.len() as int) =~= all);
}

} // verus!
