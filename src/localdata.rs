use vstd::prelude::*;

verus! {

/// The mapping files found in the data directory.
pub struct DataStorage {
    data_files: Vec<String>,
}

impl View for DataStorage {
    type V = Seq<String>;

    closed spec fn view(&self) -> Seq<String> {
        self.data_files@
    }
}

impl DataStorage {
    /// The storage for a directory listing; empty where the directory could not be listed.
    pub fn new(listing: Option<Vec<String>>) -> (r: DataStorage)
        ensures
            r@ == (match listing {
                Some(files) => files@,
                None => Seq::<String>::empty(),
            }),
    {
        match listing {
            Some(files) => DataStorage { data_files: files },
            None => DataStorage { data_files: Vec::new() },
        }
    }

    pub fn get_list_files(&self) -> (r: Vec<String>)
        ensures
            r@ == self@,
    {
        self.data_files.clone()
    }

    /// The file with the given 1-based number, if there is one.
    pub fn pick(&self, number: u16) -> (r: Option<String>)
        ensures
            r == (if 1 <= number <= self@.len() {
                Some(self@[number - 1])
            } else {
                None
            }),
    {
        if number >= 1 && (number as usize) <= self.data_files.len() {
            Some(self.data_files[(number - 1) as usize].clone())
        } else {
            None
        }
    }
}

} // verus!
