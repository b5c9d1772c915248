//! The region table: short district keys with their full administrative
//! names and codes, and the first-match lookup of a key inside a text.
//!
//! Lookup goes through the table in its own order and takes the first entry
//! whose key occurs in the text, so the order of the table decides between
//! two keys that both occur.

use vstd::prelude::*;
use vstd::string::*;
use crate::text::{chars_of, contains_chars, contains_seq};

verus! {

/// One district: the key looked for in cell text, the full administrative
/// name that replaces the cell, and the comma-joined province, city and
/// district code.
#[derive(Clone, Debug)]
pub struct RegionEntry {
    pub key: String,
    pub full_name: String,
    pub code: String,
}

/// The first of the first `n` entries of `table` whose key occurs in `t`.
pub open spec fn first_match_in(table: Seq<RegionEntry>, t: Seq<char>, n: int) -> Option<int>
    decreases n,
{
    if n <= 0 {
        None
    } else {
        match first_match_in(table, t, n - 1) {
            Some(k) => Some(k),
            None => if contains_seq(t, table[n - 1].key@) {
                Some(n - 1)
            } else {
                None
            },
        }
    }
}

/// The index of the first entry of `table` whose key occurs in `t`.
pub open spec fn first_match(table: Seq<RegionEntry>, t: Seq<char>) -> Option<int> {
    first_match_in(table, t, table.len() as int)
}

/// What a cell of the target column becomes: the full name of the first
/// matching entry, or the text itself when no key occurs in it.
pub open spec fn mapped_text(table: Seq<RegionEntry>, t: Seq<char>) -> Seq<char> {
    match first_match(table, t) {
        Some(k) => table[k].full_name@,
        None => t,
    }
}

/// The code of the first matching entry, or the empty text.
pub open spec fn code_text(table: Seq<RegionEntry>, t: Seq<char>) -> Seq<char> {
    match first_match(table, t) {
        Some(k) => table[k].code@,
        None => Seq::empty(),
    }
}

/// The lookup finds entry `k` exactly when its key occurs in `t` and no
/// earlier key does.
pub proof fn lemma_first_match_in(table: Seq<RegionEntry>, t: Seq<char>, n: int)
    requires
        0 <= n <= table.len(),
    ensures
        match first_match_in(table, t, n) {
            Some(k) => 0 <= k < n && contains_seq(t, table[k].key@) && forall|j: int|
                0 <= j < k ==> !contains_seq(t, #[trigger] table[j].key@),
            None => forall|j: int| 0 <= j < n ==> !contains_seq(t, #[trigger] table[j].key@),
        },
    decreases n,
{
    if n > 0 {
        lemma_first_match_in(table, t, n - 1);
    }
}

/// The index of the first entry whose key occurs in `text`, given as characters.
pub fn resolve_chars(table: &Vec<RegionEntry>, text: &Vec<char>) -> (r: Option<usize>)
    ensures
        match r {
            Some(k) => k < table@.len() && first_match(table@, text@) == Some(k as int),
            None => first_match(table@, text@) is None,
        },
{
    let mut i: usize = 0;
    while i < table.len()
        invariant
            i <= table@.len(),
            first_match_in(table@, text@, i as int) is None,
        decreases table@.len() - i,
    {
        let key = chars_of(table[i].key.as_str());
        if contains_chars(text, &key) {
            proof {
                lemma_first_match_in_extends(table@, text@, i as int + 1);
            }
            return Some(i);
        }
        i = i + 1;
    }
    None
}

/// Once a match is found among the first `n` entries, later entries do not
/// change it.
pub proof fn lemma_first_match_in_extends(table: Seq<RegionEntry>, t: Seq<char>, n: int)
    requires
        0 <= n <= table.len(),
        first_match_in(table, t, n) is Some,
    ensures
        first_match(table, t) == first_match_in(table, t, n),
    decreases table.len() - n,
{
    if n < table.len() {
        lemma_first_match_in_extends(table, t, n + 1);
    }
}

/// The index of the first entry of `table` whose key occurs in `text`.
pub fn resolve(table: &Vec<RegionEntry>, text: &str) -> (r: Option<usize>)
    ensures
        match r {
            Some(k) => k < table@.len() && first_match(table@, text@) == Some(k as int),
            None => first_match(table@, text@) is None,
        },
{
    let t = chars_of(text);
    resolve_chars(table, &t)
}

/// The districts of Xuzhou as (key, full name, code), in lookup order.
pub open spec fn xuzhou_table() -> Seq<(Seq<char>, Seq<char>, Seq<char>)> {
    seq![
        ("鼓楼"@, "江苏省徐州市鼓楼区"@, "320000,320300,320302"@),
        ("云龙"@, "江苏省徐州市云龙区"@, "320000,320300,320303"@),
        ("泉山"@, "江苏省徐州市泉山区"@, "320000,320300,320311"@),
        ("铜山"@, "江苏省徐州市铜山区"@, "320000,320300,320312"@),
        ("丰县"@, "江苏省徐州市丰县"@, "320000,320300,320321"@),
        ("睢宁"@, "江苏省徐州市睢宁县"@, "320000,320300,320324"@),
        ("开发区"@, "江苏省徐州市徐州经济技术开发区"@, "320000,320300,320371"@),
        ("新沂"@, "江苏省徐州市新沂市"@, "320000,320300,320381"@),
        ("邳州"@, "江苏省徐州市邳州市"@, "320000,320300,320382"@),
        ("工业园"@, "江苏省徐州市工业园区"@, "320000,320300,320391"@),
        ("贾汪"@, "江苏省徐州市贾汪区"@, "320000,320300,320305"@),
        ("沛县"@, "江苏省徐州市沛县"@, "320000,320300,320322"@),
    ]
}

/// `table` holds exactly the entries of `spec_table`, in the same order.
pub open spec fn table_is(table: Seq<RegionEntry>, spec_table: Seq<(Seq<char>, Seq<char>, Seq<char>)>) -> bool {
    &&& table.len() == spec_table.len()
    &&& forall|i: int|
        0 <= i < table.len() ==> {
            &&& (#[trigger] table[i]).key@ == spec_table[i].0
            &&& table[i].full_name@ == spec_table[i].1
            &&& table[i].code@ == spec_table[i].2
        }
}

/// No two entries of `table` share a key.
pub open spec fn keys_unique(table: Seq<RegionEntry>) -> bool {
    forall|i: int, j: int|
        0 <= i < table.len() && 0 <= j < table.len() && i != j ==> (#[trigger] table[i]).key@
            != (#[trigger] table[j]).key@
}

/// An entry made of three texts.
pub fn entry(key: &str, full_name: &str, code: &str) -> (r: RegionEntry)
    ensures
        r.key@ == key@,
        r.full_name@ == full_name@,
        r.code@ == code@,
{
    RegionEntry {
        key: String::from_str(key),
        full_name: String::from_str(full_name),
        code: String::from_str(code),
    }
}

/// The table of Xuzhou's districts used by default.
pub fn default_regions() -> (r: Vec<RegionEntry>)
    ensures
        table_is(r@, xuzhou_table()),
        keys_unique(r@),
{
    let mut t: Vec<RegionEntry> = Vec::new();
    t.push(entry("鼓楼", "江苏省徐州市鼓楼区", "320000,320300,320302"));
    t.push(entry("云龙", "江苏省徐州市云龙区", "320000,320300,320303"));
    t.push(entry("泉山", "江苏省徐州市泉山区", "320000,320300,320311"));
    t.push(entry("铜山", "江苏省徐州市铜山区", "320000,320300,320312"));
    t.push(entry("丰县", "江苏省徐州市丰县", "320000,320300,320321"));
    t.push(entry("睢宁", "江苏省徐州市睢宁县", "320000,320300,320324"));
    t.push(entry("开发区", "江苏省徐州市徐州经济技术开发区", "320000,320300,320371"));
    t.push(entry("新沂", "江苏省徐州市新沂市", "320000,320300,320381"));
    t.push(entry("邳州", "江苏省徐州市邳州市", "320000,320300,320382"));
    t.push(entry("工业园", "江苏省徐州市工业园区", "320000,320300,320391"));
    t.push(entry("贾汪", "江苏省徐州市贾汪区", "320000,320300,320305"));
    t.push(entry("沛县", "江苏省徐州市沛县", "320000,320300,320322"));
    assert(table_is(t@, xuzhou_table()));
    proof {
        reveal_strlit("鼓楼");
        reveal_strlit("云龙");
        reveal_strlit("泉山");
        reveal_strlit("铜山");
        reveal_strlit("丰县");
        reveal_strlit("睢宁");
        reveal_strlit("开发区");
        reveal_strlit("新沂");
        reveal_strlit("邳州");
        reveal_strlit("工业园");
        reveal_strlit("贾汪");
        reveal_strlit("沛县");
        assert(t@[0].key@[0] == '鼓');
        assert(t@[1].key@[0] == '云');
        assert(t@[2].key@[0] == '泉');
        assert(t@[3].key@[0] == '铜');
        assert(t@[4].key@[0] == '丰');
        assert(t@[5].key@[0] == '睢');
        assert(t@[6].key@[0] == '开');
        assert(t@[7].key@[0] == '新');
        assert(t@[8].key@[0] == '邳');
        assert(t@[9].key@[0] == '工');
        assert(t@[10].key@[0] == '贾');
        assert(t@[11].key@[0] == '沛');
        let firsts = seq!['鼓', '云', '泉', '铜', '丰', '睢', '开', '新', '邳', '工', '贾', '沛'];
        assert(forall|i: int| 0 <= i < 12 ==> (#[trigger] t@[i]).key@[0] == firsts[i]);
        assert(forall|i: int, j: int| 0 <= i < 12 && 0 <= j < 12 && i != j ==> firsts[i] != firsts[j]);
        assert(forall|i: int, j: int|
            0 <= i < 12 && 0 <= j < 12 && i != j ==> (#[trigger] t@[i]).key@[0] != (#[trigger] t@[j]).key@[0]);
    }
    assert(keys_unique(t@));
    t
}

} // verus!
