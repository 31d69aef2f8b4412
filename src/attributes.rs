use crate::error::TranslationError;
use vstd::prelude::*;
use vstd::string::*;

verus! {

/// Where an attribute variable lives when the runtime injects it.
#[derive(Clone, Copy, Debug, PartialEq, Eq, Structural)]
pub enum StorageClass {
    Global,
    Const,
    Shared,
    Local,
    Param,
}

/// One shader-visible variable of an attribute block.
#[derive(Debug)]
pub struct AttributeVariable {
    pub name: String,
    pub ty: String,
    pub storage: StorageClass,
}

/// The plain value of an attribute variable: name, type name, storage class.
pub type AttributeModel = (Seq<char>, Seq<char>, StorageClass);

impl View for AttributeVariable {
    type V = AttributeModel;

    open spec fn view(&self) -> AttributeModel {
        (self.name@, self.ty@, self.storage)
    }
}

/// An ordered set of uniquely named attribute variables that the runtime
/// injects into each invocation of a shader program.
#[derive(Debug)]
pub struct AttributeVariablesBlock {
    entries: Vec<AttributeVariable>,
}

/// Whether some entry of the sequence carries the name.
pub open spec fn names_contain(entries: Seq<AttributeModel>, name: Seq<char>) -> bool {
    exists|i: int| 0 <= i < entries.len() && (#[trigger] entries[i]).0 == name
}

/// No two entries share a name.
pub open spec fn names_unique(entries: Seq<AttributeModel>) -> bool {
    forall|i: int, j: int|
        0 <= i < entries.len() && 0 <= j < entries.len() && i != j ==> (#[trigger] entries[i]).0
            != (#[trigger] entries[j]).0
}

impl View for AttributeVariablesBlock {
    type V = Seq<AttributeModel>;

    closed spec fn view(&self) -> Seq<AttributeModel> {
        self.entries@.map_values(|v: AttributeVariable| v@)
    }
}

impl AttributeVariablesBlock {
    /// The block keeps its names unique.
    pub open spec fn wf(&self) -> bool {
        names_unique(self@)
    }

    /// A block with no entries.
    pub fn empty() -> (r: AttributeVariablesBlock)
        ensures
            r.wf(),
            r@ == Seq::<AttributeModel>::empty(),
    {
        let r = AttributeVariablesBlock { entries: Vec::new() };
        assert(r@ =~= Seq::<AttributeModel>::empty());
        r
    }

    /// Number of declared variables.
    pub fn len(&self) -> (r: usize)
        ensures
            r == self@.len(),
    {
        self.entries.len()
    }

    /// Declares a variable at the end of the block; a name that is already
    /// declared is refused and leaves the block as it was.
    pub fn declare(&mut self, name: String, ty: String, storage: StorageClass) -> (r: Result<
        (),
        TranslationError,
    >)
        requires
            old(self).wf(),
        ensures
            final(self).wf(),
            names_contain(old(self)@, name@) ==> r == Err::<(), TranslationError>(
                TranslationError::DuplicateAttribute,
            ) && final(self)@ == old(self)@,
            !names_contain(old(self)@, name@) ==> r == Ok::<(), TranslationError>(())
                && final(self)@ == old(self)@.push((name@, ty@, storage)),
    {
        match self.position(name.as_str()) {
            Some(_) => Err(TranslationError::DuplicateAttribute),
            None => {
                let ghost before = self@;
                self.entries.push(AttributeVariable { name, ty, storage });
                assert(self@ =~= before.push((name@, ty@, storage)));
                assert(names_unique(self@)) by {
                    assert forall|i: int, j: int|
                        0 <= i < self@.len() && 0 <= j < self@.len() && i != j implies (
                        #[trigger] self@[i]).0 != (#[trigger] self@[j]).0 by {
                        if i == before.len() as int {
                            assert(self@[j] == before[j]);
                        } else if j == before.len() as int {
                            assert(self@[i] == before[i]);
                        }
                    }
                }
                Ok(())
            },
        }
    }

    /// Index of the variable with the given name, if one is declared.
    pub fn position(&self, name: &str) -> (r: Option<usize>)
        ensures
            match r {
                Some(i) => i < self@.len() && self@[i as int].0 == name@,
                None => !names_contain(self@, name@),
            },
    {
        let key = String::from_str(name);
        let mut i: usize = 0;
        while i < self.entries.len()
            invariant
                0 <= i <= self.entries@.len(),
                key@ == name@,
                forall|k: int| 0 <= k < i ==> (#[trigger] self@[k]).0 != name@,
            decreases self.entries@.len() - i,
        {
            if self.entries[i].name == key {
                return Some(i);
            }
            i = i + 1;
        }
        None
    }

    /// The variable with the given name, if one is declared.
    pub fn lookup(&self, name: &str) -> (r: Option<&AttributeVariable>)
        requires
            self.wf(),
        ensures
            match r {
                Some(v) => names_contain(self@, name@) && v@.0 == name@ && exists|i: int|
                    0 <= i < self@.len() && #[trigger] self@[i] == v@,
                None => !names_contain(self@, name@),
            },
    {
        match self.position(name) {
            Some(i) => Some(&self.entries[i]),
            None => None,
        }
    }

    /// The variable that an instruction of the translated function refers
    /// to; a name the block does not declare is an error, never a guess.
    pub fn resolve(&self, name: &str) -> (r: Result<&AttributeVariable, TranslationError>)
        requires
            self.wf(),
        ensures
            match r {
                Ok(v) => v@.0 == name@ && exists|i: int|
                    0 <= i < self@.len() && #[trigger] self@[i] == v@,
                Err(e) => e == TranslationError::UndeclaredAttribute && !names_contain(
                    self@,
                    name@,
                ),
            },
    {
        match self.lookup(name) {
            Some(v) => Ok(v),
            None => Err(TranslationError::UndeclaredAttribute),
        }
    }
}

/// A name declared into a block that lacked it is then found, and the one
/// entry under that name is the declared variable; the block stays uniquely
/// named. A name never declared is not found, which resolution reports as
/// an undeclared attribute.
pub proof fn lemma_declared_attribute_is_found(
    entries: Seq<AttributeModel>,
    name: Seq<char>,
    ty: Seq<char>,
    storage: StorageClass,
)
    requires
        names_unique(entries),
        !names_contain(entries, name),
    ensures
        ({
            let after = entries.push((name, ty, storage));
            &&& names_unique(after)
            &&& names_contain(after, name)
            &&& forall|i: int|
                0 <= i < after.len() && (#[trigger] after[i]).0 == name ==> after[i] == (
                    name,
                    ty,
                    storage,
                )
        }),
{
    let after = entries.push((name, ty, storage));
    assert(after[entries.len() as int].0 == name);
    assert forall|i: int|
        0 <= i < after.len() && (#[trigger] after[i]).0 == name implies after[i] == (
        name,
        ty,
        storage,
    ) by {
        if i < entries.len() {
            assert(after[i] == entries[i]);
        }
    }
    assert forall|i: int, j: int|
        0 <= i < after.len() && 0 <= j < after.len() && i != j implies (#[trigger] after[i]).0
        != (#[trigger] after[j]).0 by {
        if i < entries.len() {
            assert(after[i] == entries[i]);
        }
        if j < entries.len() {
            assert(after[j] == entries[j]);
        }
    }
}

} // verus!
