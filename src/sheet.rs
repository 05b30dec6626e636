use vstd::prelude::*;

verus! {

/// A rectangle of a sprite sheet, in pixels.
#[derive(Clone, Copy, Debug, PartialEq, Eq, Structural)]
pub struct SheetRect {
    pub x: i16,
    pub y: i16,
    pub w: i16,
    pub h: i16,
}

/// One sprite of a sheet: where it lies in the image, and where its trimmed
/// content sits within the untrimmed sprite.
#[derive(Clone, Copy, Debug, PartialEq, Eq, Structural)]
pub struct Cell {
    pub frame: SheetRect,
    pub sprite_source_size: SheetRect,
}

/// A named sprite.
#[derive(Clone, Debug)]
pub struct SheetEntry {
    pub name: String,
    pub cell: Cell,
}

/// Sprite-sheet metadata: names mapped to cells, each name at most once.
#[derive(Clone, Debug)]
pub struct Sheet {
    frames: Vec<SheetEntry>,
}

/// No two entries of `entries` have the same name.
pub open spec fn names_unique(entries: Seq<SheetEntry>) -> bool {
    forall|i: int, j: int| 0 <= i < j < entries.len() ==> #[trigger] entries[i].name@ != #[trigger] entries[j].name@
}

/// The cell of the first entry named `name`.
pub open spec fn find_cell(frames: Seq<SheetEntry>, name: Seq<char>) -> Option<Cell>
    decreases frames.len(),
{
    if frames.len() == 0 {
        None
    } else if frames[0].name@ == name {
        Some(frames[0].cell)
    } else {
        find_cell(frames.drop_first(), name)
    }
}

/// The decimal digits of `n`, most significant first.
pub open spec fn decimal(n: nat) -> Seq<char>
    decreases n,
{
    if n < 10 {
        seq![digit_char(n)]
    } else {
        decimal(n / 10) + seq![digit_char(n % 10)]
    }
}

pub open spec fn digit_char(d: nat) -> char {
    if d == 0 { '0' } else if d == 1 { '1' } else if d == 2 { '2' } else if d == 3 { '3' }
    else if d == 4 { '4' } else if d == 5 { '5' } else if d == 6 { '6' } else if d == 7 { '7' }
    else if d == 8 { '8' } else { '9' }
}

/// The file name of sprite `number` of the animation `label`: `"Run (3).png"`.
pub open spec fn sprite_name(label: Seq<char>, number: nat) -> Seq<char> {
    label + " ("@ + decimal(number) + ").png"@
}

/// The decimal digit `d` as a string.
fn digit_str(d: u8) -> (r: &'static str)
    requires
        d < 10,
    ensures
        r@ == seq![digit_char(d as nat)],
{
    proof {
        reveal_strlit("0");
        reveal_strlit("1");
        reveal_strlit("2");
        reveal_strlit("3");
        reveal_strlit("4");
        reveal_strlit("5");
        reveal_strlit("6");
        reveal_strlit("7");
        reveal_strlit("8");
        reveal_strlit("9");
    }
    if d == 0 { "0" } else if d == 1 { "1" } else if d == 2 { "2" } else if d == 3 { "3" }
    else if d == 4 { "4" } else if d == 5 { "5" } else if d == 6 { "6" } else if d == 7 { "7" }
    else if d == 8 { "8" } else { "9" }
}

/// The file name of sprite `number` of the animation `label`.
pub fn sprite_file_name(label: &str, number: u8) -> (r: String)
    ensures
        r@ == sprite_name(label@, number as nat),
{
    let mut name = String::from_str(label);
    name.append(" (");
    let ghost prefix = name@;
    let ghost n = number as nat;
    if number >= 100 {
        name.append(digit_str(number / 100));
    }
    if number >= 10 {
        name.append(digit_str((number / 10) % 10));
    }
    name.append(digit_str(number % 10));
    proof {
        reveal_with_fuel(decimal, 3);
        if n >= 100 {
            assert(n / 10 / 10 == n / 100);
            assert(decimal(n / 10) == seq![digit_char(n / 100)] + seq![digit_char((n / 10) % 10)]);
        } else if n >= 10 {
            assert(decimal(n) == seq![digit_char(n / 10)] + seq![digit_char(n % 10)]);
        }
        assert(name@ =~= prefix + decimal(n));
    }
    name.append(").png");
    name
}

/// The entry at `i` is the only one named `name`: the lookup finds its cell.
pub proof fn lemma_find_unique(entries: Seq<SheetEntry>, name: Seq<char>, i: int)
    requires
        names_unique(entries),
        0 <= i < entries.len(),
        entries[i].name@ == name,
    ensures
        find_cell(entries, name) == Some(entries[i].cell),
    decreases i,
{
    if i > 0 {
        assert(entries[0].name@ != entries[i].name@);
        let rest = entries.drop_first();
        assert(rest[i - 1] == entries[i]);
        assert forall|a: int, b: int| 0 <= a < b < rest.len() implies #[trigger] rest[a].name@ != #[trigger] rest[b].name@ by {
            assert(rest[a] == entries[a + 1]);
            assert(rest[b] == entries[b + 1]);
        }
        lemma_find_unique(rest, name, i - 1);
    }
}

/// Where no entry is named `name`, the lookup finds nothing.
pub proof fn lemma_find_absent(entries: Seq<SheetEntry>, name: Seq<char>)
    requires
        forall|i: int| 0 <= i < entries.len() ==> #[trigger] entries[i].name@ != name,
    ensures
        find_cell(entries, name) is None,
    decreases entries.len(),
{
    if entries.len() > 0 {
        let rest = entries.drop_first();
        assert forall|i: int| 0 <= i < rest.len() implies #[trigger] rest[i].name@ != name by {
            assert(rest[i] == entries[i + 1]);
        }
        lemma_find_absent(rest, name);
    }
}

/// Two lists whose entries named `name` sit at the same places with the same
/// cells give the same lookup.
proof fn lemma_find_same(a: Seq<SheetEntry>, b: Seq<SheetEntry>, name: Seq<char>)
    requires
        names_unique(a),
        names_unique(b),
        forall|i: int| 0 <= i < a.len() && #[trigger] a[i].name@ == name ==> i < b.len() && b[i] == a[i],
        forall|i: int| 0 <= i < b.len() && #[trigger] b[i].name@ == name ==> i < a.len() && a[i] == b[i],
    ensures
        find_cell(a, name) == find_cell(b, name),
{
    if exists|i: int| 0 <= i < a.len() && #[trigger] a[i].name@ == name {
        let i = choose|i: int| 0 <= i < a.len() && #[trigger] a[i].name@ == name;
        lemma_find_unique(a, name, i);
        lemma_find_unique(b, name, i);
    } else {
        lemma_find_absent(a, name);
        assert forall|i: int| 0 <= i < b.len() implies #[trigger] b[i].name@ != name by {
            if b[i].name@ == name {
                assert(a[i] == b[i]);
            }
        }
        lemma_find_absent(b, name);
    }
}

impl Sheet {
    /// The entries, in the order they were first inserted.
    pub closed spec fn entries(&self) -> Seq<SheetEntry> {
        self.frames@
    }

    /// Each name occurs at most once.
    pub open spec fn wf(&self) -> bool {
        names_unique(self.entries())
    }

    pub open spec fn cell_spec(&self, name: Seq<char>) -> Option<Cell> {
        find_cell(self.entries(), name)
    }

    /// An empty sheet.
    pub fn new() -> (r: Sheet)
        ensures
            r.wf(),
            r.entries().len() == 0,
            forall|name: Seq<char>| #[trigger] r.cell_spec(name) is None,
    {
        Sheet { frames: Vec::new() }
    }

    /// The entries, in the order they were first inserted.
    pub fn frames(&self) -> (r: &Vec<SheetEntry>)
        ensures
            r@ == self.entries(),
    {
        &self.frames
    }

    /// Where the entry named `name` is.
    fn index_of(&self, name: &String) -> (r: Option<usize>)
        ensures
            match r {
                Some(i) => i < self.frames@.len() && self.frames@[i as int].name@ == name@,
                None => forall|j: int| 0 <= j < self.frames@.len() ==> #[trigger] self.frames@[j].name@ != name@,
            },
    {
        let mut i: usize = 0;
        while i < self.frames.len()
            invariant
                i <= self.frames@.len(),
                forall|j: int| 0 <= j < i ==> #[trigger] self.frames@[j].name@ != name@,
            decreases self.frames@.len() - i,
        {
            if self.frames[i].name == *name {
                return Some(i);
            }
            i = i + 1;
        }
        None
    }

    /// Maps `name` to `cell`, in place of any cell it had.
    pub fn insert(&mut self, name: String, cell: Cell)
        requires
            old(self).wf(),
        ensures
            final(self).wf(),
            forall|k: Seq<char>| #[trigger] final(self).cell_spec(k) == if k == name@ {
                Some(cell)
            } else {
                old(self).cell_spec(k)
            },
    {
        let ghost before = self.frames@;
        let found = self.index_of(&name);
        let ghost key = name@;
        let entry = SheetEntry { name, cell };
        if let Some(i) = found {
            self.frames.set(i, entry);
            let ghost after = self.frames@;
            proof {
                assert(before[i as int].name@ == key);
                assert forall|a: int, b: int| 0 <= a < b < after.len() implies #[trigger] after[a].name@ != #[trigger] after[b].name@ by {
                    if a != i && b != i {
                        assert(after[a] == before[a] && after[b] == before[b]);
                    } else if a == i {
                        assert(before[a].name@ != before[b].name@);
                    } else {
                        assert(before[a].name@ != before[b].name@);
                    }
                }
                assert forall|k: Seq<char>| #[trigger] find_cell(after, k) == if k == key {
                    Some(cell)
                } else {
                    find_cell(before, k)
                } by {
                    if k == key {
                        lemma_find_unique(after, k, i as int);
                    } else {
                        lemma_find_same(before, after, k);
                    }
                }
            }
        } else {
            self.frames.push(entry);
            let ghost after = self.frames@;
            proof {
                assert forall|a: int, b: int| 0 <= a < b < after.len() implies #[trigger] after[a].name@ != #[trigger] after[b].name@ by {
                    if b < before.len() {
                        assert(after[a] == before[a] && after[b] == before[b]);
                    } else {
                        assert(after[a] == before[a]);
                    }
                }
                assert forall|k: Seq<char>| #[trigger] find_cell(after, k) == if k == key {
                    Some(cell)
                } else {
                    find_cell(before, k)
                } by {
                    if k == key {
                        lemma_find_unique(after, k, before.len() as int);
                    } else {
                        assert forall|j: int| 0 <= j < before.len() && #[trigger] before[j].name@ == k implies j < after.len() && after[j] == before[j] by {}
                        assert forall|j: int| 0 <= j < after.len() && #[trigger] after[j].name@ == k implies j < before.len() && before[j] == after[j] by {}
                        lemma_find_same(before, after, k);
                    }
                }
            }
        }
    }

    /// The cell named `name`, if the sheet has one.
    pub fn cell(&self, name: &String) -> (r: Option<Cell>)
        ensures
            r == self.cell_spec(name@),
    {
        let mut i: usize = 0;
        assert(self.frames@.skip(0) =~= self.frames@);
        while i < self.frames.len()
            invariant
                i <= self.frames@.len(),
                find_cell(self.frames@, name@) == find_cell(self.frames@.skip(i as int), name@),
            decreases self.frames@.len() - i,
        {
            assert(self.frames@.skip(i as int).drop_first() =~= self.frames@.skip(i + 1));
            if self.frames[i].name == *name {
                return Some(self.frames[i].cell);
            }
            i = i + 1;
        }
        None
    }

    /// Whether the sheet has sprites `1..=count` of the animation `label`.
    pub fn has_frames(&self, label: &str, count: u8) -> (r: bool)
        ensures
            r == (forall|n: nat| 1 <= n <= count ==> #[trigger] self.cell_spec(sprite_name(label@, n)) is Some),
    {
        let mut n: u8 = 1;
        while n <= count
            invariant
                1 <= n,
                n <= count + 1,
                forall|k: nat| 1 <= k < n ==> #[trigger] self.cell_spec(sprite_name(label@, k)) is Some,
            decreases count + 1 - n,
        {
            let name = sprite_file_name(label, n);
            if self.cell(&name).is_none() {
                return false;
            }
            if n == 255 {
                return true;
            }
            n = n + 1;
        }
        true
    }
}

} // verus!
