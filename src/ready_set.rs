use vstd::prelude::*;

verus! {

/// Why a ready set could not be built.
#[derive(Debug, Clone, Copy, PartialEq, Eq)]
pub enum ReadySetError {
    /// No item was given: there is nothing to display.
    NoItems,
}

/// What a ready set holds: its items in display order, and whether the only
/// item is the bootstrap placeholder.
pub ghost struct ReadySetModel {
    pub items: Seq<String>,
    pub placeholder: bool,
}

impl ReadySetModel {
    /// Every observable state holds at least one item, and a placeholder is
    /// only ever alone.
    pub open spec fn wf(self) -> bool {
        &&& self.items.len() > 0
        &&& self.placeholder ==> self.items.len() == 1
    }

    /// The state after `item` was appended: the first real item evicts the
    /// placeholder, any later one goes to the end.
    pub open spec fn append(self, item: String) -> ReadySetModel {
        ReadySetModel {
            items: if self.placeholder { seq![item] } else { self.items.push(item) },
            placeholder: false,
        }
    }

    /// The items that were appended for real (the placeholder not counted).
    pub open spec fn real_items(self) -> Seq<String> {
        if self.placeholder { Seq::empty() } else { self.items }
    }
}

/// The append-only, ordered collection of items that are ready for display.
pub struct ReadySet {
    items: Vec<String>,
    placeholder: bool,
}

impl View for ReadySet {
    type V = ReadySetModel;

    closed spec fn view(&self) -> ReadySetModel {
        ReadySetModel { items: self.items@, placeholder: self.placeholder }
    }
}

impl ReadySet {
    /// A set that holds only the bootstrap placeholder, shown until real
    /// content arrives.
    pub fn with_placeholder(placeholder: String) -> (r: ReadySet)
        ensures
            r@.items == seq![placeholder],
            r@.placeholder,
            r@.wf(),
    {
        let mut items: Vec<String> = Vec::new();
        items.push(placeholder);
        ReadySet { items, placeholder: true }
    }

    /// A set of real items given up front; an empty list is refused.
    pub fn from_items(items: Vec<String>) -> (r: Result<ReadySet, ReadySetError>)
        ensures
            items@.len() == 0 <==> r == Err::<ReadySet, ReadySetError>(ReadySetError::NoItems),
            r matches Ok(s) ==> s@.items == items@ && !s@.placeholder && s@.wf(),
    {
        if items.len() == 0 {
            Err(ReadySetError::NoItems)
        } else {
            Ok(ReadySet { items, placeholder: false })
        }
    }

    /// Appends one real item; the first one also evicts the placeholder.
    pub fn append(&mut self, item: String)
        requires
            old(self)@.wf(),
        ensures
            final(self)@ == old(self)@.append(item),
            final(self)@.wf(),
    {
        if self.placeholder {
            self.items.push(item);
            self.items.remove(0);
            self.placeholder = false;
            assert(self.items@ =~= seq![item]);
        } else {
            self.items.push(item);
        }
    }

    /// The number of items.
    pub fn len(&self) -> (r: usize)
        requires
            self@.wf(),
        ensures
            r == self@.items.len(),
            r > 0,
    {
        self.items.len()
    }

    /// A copy of the item at `index`, if there is one.
    pub fn get(&self, index: usize) -> (r: Option<String>)
        ensures
            index < self@.items.len() ==> r == Some(self@.items[index as int]),
            index >= self@.items.len() ==> r is None,
    {
        if index < self.items.len() {
            Some(self.items[index].clone())
        } else {
            None
        }
    }

    /// Whether the only item is still the bootstrap placeholder.
    pub fn has_placeholder(&self) -> (r: bool)
        ensures
            r == self@.placeholder,
    {
        self.placeholder
    }
}

} // verus!
