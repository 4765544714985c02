//! Symbol resolution: the ordered candidate names of the platform library,
//! the fixed list of function names the context needs, the acceptance rules
//! for resolved addresses, and the table of resolved addresses whose
//! invariant — no null pointer once construction succeeds — every later call
//! relies on.
//!
//! The platform layer opens the library and looks the names up; this module
//! decides which candidate to try next, whether a resolved address is
//! acceptable, and refuses to build a table with a hole in it.

use vstd::prelude::*;

use crate::error::Error;

verus! {

/// How many function names the context resolves, eagerly, at construction.
pub const SYMBOL_COUNT: usize = 40;

/// The function name to resolve for each slot of the table, null terminator
/// not included.  The platform layer resolves the names in slot order, so
/// every address is in place before the context is built.
pub fn symbol_name(i: usize) -> (r: &'static str)
    requires
        i < SYMBOL_COUNT,
{
    match i {
        0 => "glClear",
        1 => "glClearColor",
        2 => "glDisable",
        3 => "glEnable",
        4 => "glGetError",
        5 => "glBlendFuncSeparate",
        6 => "glCreateShader",
        7 => "glShaderSource",
        8 => "glCompileShader",
        9 => "glCreateProgram",
        10 => "glAttachShader",
        11 => "glLinkProgram",
        12 => "glGetUniformLocation",
        13 => "glGenBuffers",
        14 => "glBindBuffer",
        15 => "glBufferData",
        16 => "glGetAttribLocation",
        17 => "glGetShaderiv",
        18 => "glGetShaderInfoLog",
        19 => "glDrawArrays",
        20 => "glUseProgram",
        21 => "glUniformMatrix4fv",
        22 => "glUniform1i",
        23 => "glUniform1f",
        24 => "glUniform2f",
        25 => "glUniform3f",
        26 => "glUniform4f",
        27 => "glBindTexture",
        28 => "glVertexAttribPointer",
        29 => "glGenTextures",
        30 => "glTexParameteri",
        31 => "glTexImage2D",
        32 => "glTexSubImage2D",
        33 => "glEnableVertexAttribArray",
        34 => "glViewport",
        35 => "glGenerateMipmap",
        36 => "glDetachShader",
        37 => "glDeleteProgram",
        38 => "glDeleteBuffers",
        _ => "glDeleteTextures",
    }
}

/// The ordered candidate names of the platform graphics library: the
/// embedded-profile loader first, the desktop library as fallback.
pub fn default_library_names() -> (r: Vec<String>)
    ensures
        r@.len() == 2,
        r@[0]@ == "libEGL.so.1"@,
        r@[1]@ == "libGL.so.1"@,
{
    let mut names: Vec<String> = Vec::new();
    names.push("libEGL.so.1".to_owned());
    names.push("libGL.so.1".to_owned());
    names
}

/// Accepts a resolved address, or reports the symbol missing: the platform
/// resolver reports an absent function as a null pointer, and a context is
/// never built over one.
pub fn check_address(addr: u64) -> (r: Result<u64, Error>)
    ensures
        r == if addr != 0 {
            Ok::<u64, Error>(addr)
        } else {
            Err::<u64, Error>(Error::SymbolNotFound)
        },
{
    if addr != 0 {
        Ok(addr)
    } else {
        Err(Error::SymbolNotFound)
    }
}

/// The windowed-path resolution rule: the context-sensitive resolver is
/// tried first, and only when it reports null is the plain lookup in the
/// graphics library itself consulted; only if both report null is the
/// symbol missing.
pub fn resolve_address(primary: u64, fallback: u64) -> (r: Result<u64, Error>)
    ensures
        r == if primary != 0 {
            Ok::<u64, Error>(primary)
        } else if fallback != 0 {
            Ok::<u64, Error>(fallback)
        } else {
            Err::<u64, Error>(Error::SymbolNotFound)
        },
{
    if primary != 0 {
        Ok(primary)
    } else if fallback != 0 {
        Ok(fallback)
    } else {
        Err(Error::SymbolNotFound)
    }
}

/// The table of resolved function addresses.  Once built, it has one
/// address per required name and none of them is null.
pub struct FnTable {
    addrs: Vec<u64>,
}

impl FnTable {
    /// The resolved addresses, slot by slot.
    pub closed spec fn addresses(self) -> Seq<u64> {
        self.addrs@
    }

    /// The table invariant: full, with no null address.
    pub open spec fn wf(self) -> bool {
        &&& self.addresses().len() == SYMBOL_COUNT
        &&& forall|i: int| 0 <= i < self.addresses().len() ==> self.addresses()[i] != 0
    }

    /// Builds the table from the addresses the platform resolver reported,
    /// one per required name in slot order.  Construction succeeds exactly
    /// when every slot is present and non-null; otherwise the table is
    /// refused and the missing symbol reported, so a built table never
    /// carries a null pointer.
    pub fn new(addrs: Vec<u64>) -> (r: Result<FnTable, Error>)
        ensures
            match r {
                Ok(t) => t.wf() && t.addresses() == addrs@ && addrs@.len() == SYMBOL_COUNT
                    && (forall|i: int| 0 <= i < addrs@.len() ==> addrs@[i] != 0),
                Err(e) => e == Error::SymbolNotFound && !(addrs@.len() == SYMBOL_COUNT
                    && (forall|i: int| 0 <= i < addrs@.len() ==> addrs@[i] != 0)),
            },
    {
        if addrs.len() != SYMBOL_COUNT {
            return Err(Error::SymbolNotFound);
        }
        let mut i: usize = 0;
        while i < addrs.len()
            invariant
                i <= addrs@.len(),
                forall|j: int| 0 <= j < i ==> addrs@[j] != 0,
            decreases addrs@.len() - i,
        {
            if addrs[i] == 0 {
                return Err(Error::SymbolNotFound);
            }
            i += 1;
        }
        Ok(FnTable { addrs })
    }

    /// The resolved address of a slot; never null.
    pub fn address(&self, i: usize) -> (r: u64)
        requires
            self.wf(),
            i < SYMBOL_COUNT,
        ensures
            r == self.addresses()[i as int],
            r != 0,
    {
        self.addrs[i]
    }
}

} // verus!
