//! File records and the picker that ranks loaded file names.
//!
//! Reading a directory is the caller's business; the picker is handed the
//! plain file names, in the order (sorted or not) the caller chose, and
//! assigns each its stable 1-based id.

use vstd::prelude::*;

use crate::tab_manager::TabManager;

verus! {

/// One pickable file: its 1-based rank at load time and its display name.
#[derive(Debug, Clone)]
pub struct FileItem {
    pub id: usize,
    pub name: String,
}

impl FileItem {
    /// Builds a record from its rank and its name.
    pub fn new(id: usize, name: String) -> (r: FileItem)
        ensures
            r.id == id,
            r.name@ == name@,
    {
        FileItem { id, name }
    }
}

/// Owns the most recently loaded list of file records.
pub struct FilePicker {
    items: Vec<FileItem>,
}

impl View for FilePicker {
    type V = Seq<FileItem>;

    closed spec fn view(&self) -> Seq<FileItem> {
        self.items@
    }
}

impl FilePicker {
    /// Replaces the stored records with the given names, ranked 1-based in
    /// the order handed in.
    pub fn load_names(&mut self, names: Vec<String>)
        ensures
            final(self)@.len() == names@.len(),
            forall|i: int|
                0 <= i < names@.len() ==> (#[trigger] final(self)@[i]).id == i + 1 && final(self)@[i].name@ == names@[i]@,
    {
        let mut items: Vec<FileItem> = Vec::new();
        let n = names.len();
        let mut i: usize = 0;
        while i < n
            invariant
                i <= n,
                n == names@.len(),
                items@.len() == i,
                forall|k: int| 0 <= k < i ==> items@[k].id == k + 1 && items@[k].name@ == names@[k]@,
            decreases n - i,
        {
            let name_i = names[i].clone();
            items.push(FileItem::new(i + 1, name_i));
            i += 1;
        }
        self.items = items;
    }

    /// A fresh manager over a copy of the stored records, unfiltered, with
    /// the selection at the top.
    pub fn manager(&self) -> (m: TabManager<FileItem>)
        ensures
            m@.origin.len() == self@.len(),
            forall|i: int|
                0 <= i < self@.len() ==> (#[trigger] m@.origin[i]).id == self@[i].id
                    && m@.origin[i].name@ == self@[i].name@,
            m@.working == m@.origin,
            m@.selected == 0,
    {
        let mut copies: Vec<FileItem> = Vec::new();
        let n = self.items.len();
        let mut i: usize = 0;
        while i < n
            invariant
                i <= n,
                n == self.items@.len(),
                copies@.len() == i,
                forall|k: int|
                    0 <= k < i ==> copies@[k].id == self.items@[k].id && copies@[k].name@
                        == self.items@[k].name@,
            decreases n - i,
        {
            let item = &self.items[i];
            copies.push(FileItem { id: item.id, name: item.name.clone() });
            i += 1;
        }
        TabManager::new(copies)
    }
}

impl Default for FilePicker {
    /// A picker with nothing loaded yet.
    fn default() -> (r: FilePicker)
        ensures
            r@.len() == 0,
    {
        FilePicker { items: Vec::new() }
    }
}

} // verus!
