use vstd::prelude::*;

verus! {

/// An entry of a directory listing, named by its path.
pub struct File {
    name: String,
}

impl View for File {
    type V = Seq<char>;

    closed spec fn view(&self) -> Seq<char> {
        self.name@
    }
}

impl File {
    /// A listing entry for the path `name`.
    pub fn new(name: String) -> (res: File)
        ensures
            res@ == name@,
    {
        File { name }
    }

    /// The path that names this entry.
    pub fn name(&self) -> (res: &str)
        ensures
            res@ == self@,
    {
        self.name.as_str()
    }
}

/// The text that printing the names `names` writes: each name on a line of
/// its own.
pub open spec fn listing_text(names: Seq<Seq<char>>) -> Seq<char>
    decreases names.len(),
{
    if names.len() == 0 {
        Seq::empty()
    } else {
        listing_text(names.drop_last()) + names.last() + "\n"@
    }
}

/// The names of the entries `files`.
pub open spec fn file_names(files: Seq<File>) -> Seq<Seq<char>> {
    files.map_values(|f: File| f@)
}

/// What the listing of `files` prints: each file's name, then a newline.
pub fn listing(files: &Vec<File>) -> (res: String)
    ensures
        res@ == listing_text(file_names(files@)),
{
    let mut out = String::new();
    let mut i: usize = 0;
    assert(file_names(files@).take(0) =~= Seq::<Seq<char>>::empty());
    while i < files.len()
        invariant
            i <= files.len(),
            out@ == listing_text(file_names(files@).take(i as int)),
        decreases files.len() - i,
    {
        out.append(files[i].name());
        out.append("\n");
        assert(file_names(files@).take(i + 1).drop_last() =~= file_names(files@).take(i as int));
        i = i + 1;
    }
    assert(file_names(files@).take(files.len() as int) =~= file_names(files@));
    out
}

/// Listing one more entry adds exactly its name and a newline at the end:
/// every entry is printed, in order, each on a line of its own.
pub proof fn lemma_listing_one_more(names: Seq<Seq<char>>, name: Seq<char>)
    ensures
        listing_text(names.push(name)) == listing_text(names) + name + "\n"@,
        listing_text(seq![name]) == name + "\n"@,
        listing_text(Seq::<Seq<char>>::empty()) == Seq::<char>::empty(),
{
    assert(names.push(name).drop_last() =~= names);
    assert(seq![name].drop_last() =~= Seq::<Seq<char>>::empty());
    assert(listing_text(Seq::<Seq<char>>::empty()) + name + "\n"@ =~= name + "\n"@);
}

/// The listing of a list of files is the listing of their names, one per
/// file, so a file's name appears in it whatever the name is.
pub proof fn lemma_listing_covers_files(files: Seq<File>, f: File)
    ensures
        listing_text(file_names(files.push(f))) == listing_text(file_names(files)) + f@ + "\n"@,
{
    assert(file_names(files.push(f)) =~= file_names(files).push(f@));
    lemma_listing_one_more(file_names(files), f@);
}

/// Listing two runs of files one after the other prints what listing them
/// together prints.
pub proof fn lemma_listing_concat(a: Seq<Seq<char>>, b: Seq<Seq<char>>)
    ensures
        listing_text(a + b) == listing_text(a) + listing_text(b),
    decreases b.len(),
{
    if b.len() == 0 {
        assert(a + b =~= a);
        assert(listing_text(a) + listing_text(b) =~= listing_text(a));
    } else {
        lemma_listing_concat(a, b.drop_last());
        assert((a + b).drop_last() =~= a + b.drop_last());
        assert((a + b).last() == b.last());
        assert(listing_text(a + b) =~= listing_text(a) + listing_text(b));
    }
}

} // verus!
