//! Closed enumerations for the class file's fixed-width tag bytes and
//! bitmask words: constant-pool tags, method-handle descriptors, and the
//! class, field and method access flags.
//!
//! Each flag enumeration decodes a bitmask word into the list of flags
//! whose bit is set, in declaration order; each tag enumeration decodes a
//! byte or word into its single matching value.

use vstd::prelude::*;

verus! {

/// Access flags of a class.
#[derive(Copy, Clone, Debug, PartialEq, Eq, Structural)]
pub enum ClassAccessFlags {
    Public,
    Final,
    Super,
    Interface,
    Abstract,
    Synthetic,
    Annotation,
    Enum,
}

impl ClassAccessFlags {
    /// The bit each flag occupies in the access-flag word.
    pub open spec fn bit(self) -> u16 {
        match self {
            ClassAccessFlags::Public => 0x0001,
            ClassAccessFlags::Final => 0x0010,
            ClassAccessFlags::Super => 0x0020,
            ClassAccessFlags::Interface => 0x0200,
            ClassAccessFlags::Abstract => 0x0400,
            ClassAccessFlags::Synthetic => 0x1000,
            ClassAccessFlags::Annotation => 0x2000,
            ClassAccessFlags::Enum => 0x4000,
        }
    }

    /// The flags whose bit is set in `val`, in declaration order.
    pub open spec fn spec_and_mask(val: u16) -> Seq<ClassAccessFlags> {
        let s = Seq::<ClassAccessFlags>::empty();
        let s = if val & 0x0001 != 0 {
            s.push(ClassAccessFlags::Public)
        } else {
            s
        };
        let s = if val & 0x0010 != 0 {
            s.push(ClassAccessFlags::Final)
        } else {
            s
        };
        let s = if val & 0x0020 != 0 {
            s.push(ClassAccessFlags::Super)
        } else {
            s
        };
        let s = if val & 0x0200 != 0 {
            s.push(ClassAccessFlags::Interface)
        } else {
            s
        };
        let s = if val & 0x0400 != 0 {
            s.push(ClassAccessFlags::Abstract)
        } else {
            s
        };
        let s = if val & 0x1000 != 0 {
            s.push(ClassAccessFlags::Synthetic)
        } else {
            s
        };
        let s = if val & 0x2000 != 0 {
            s.push(ClassAccessFlags::Annotation)
        } else {
            s
        };
        let s = if val & 0x4000 != 0 {
            s.push(ClassAccessFlags::Enum)
        } else {
            s
        };
        s
    }

    /// Decode a bitmask word into the set of flags it represents.
    pub fn and_mask(val: u16) -> (r: Vec<ClassAccessFlags>)
        ensures
            r@ == Self::spec_and_mask(val),
    {
        let mut ret: Vec<ClassAccessFlags> = Vec::new();
        if val & 0x0001 != 0 {
            ret.push(ClassAccessFlags::Public);
        }
        if val & 0x0010 != 0 {
            ret.push(ClassAccessFlags::Final);
        }
        if val & 0x0020 != 0 {
            ret.push(ClassAccessFlags::Super);
        }
        if val & 0x0200 != 0 {
            ret.push(ClassAccessFlags::Interface);
        }
        if val & 0x0400 != 0 {
            ret.push(ClassAccessFlags::Abstract);
        }
        if val & 0x1000 != 0 {
            ret.push(ClassAccessFlags::Synthetic);
        }
        if val & 0x2000 != 0 {
            ret.push(ClassAccessFlags::Annotation);
        }
        if val & 0x4000 != 0 {
            ret.push(ClassAccessFlags::Enum);
        }
        ret
    }
}

/// Decode an access-flag word that names exactly one class flag.
pub fn parse_class_access_flag(val: u16) -> (r: Option<ClassAccessFlags>)
    ensures
        r matches Some(f) ==> f.bit() == val,
        r is None ==> forall|f: ClassAccessFlags| f.bit() != val,
{
    if val == 0x0001 {
        Some(ClassAccessFlags::Public)
    } else if val == 0x0010 {
        Some(ClassAccessFlags::Final)
    } else if val == 0x0020 {
        Some(ClassAccessFlags::Super)
    } else if val == 0x0200 {
        Some(ClassAccessFlags::Interface)
    } else if val == 0x0400 {
        Some(ClassAccessFlags::Abstract)
    } else if val == 0x1000 {
        Some(ClassAccessFlags::Synthetic)
    } else if val == 0x2000 {
        Some(ClassAccessFlags::Annotation)
    } else if val == 0x4000 {
        Some(ClassAccessFlags::Enum)
    } else {
        None
    }
}

/// Access flags of a field.
#[derive(Copy, Clone, Debug, PartialEq, Eq, Structural)]
pub enum FieldAccessFlags {
    Public,
    Private,
    Protected,
    Static,
    Final,
    Volatile,
    Synthetic,
    Enum,
}

impl FieldAccessFlags {
    /// The bit each flag occupies in the access-flag word.
    pub open spec fn bit(self) -> u16 {
        match self {
            FieldAccessFlags::Public => 0x0001,
            FieldAccessFlags::Private => 0x0002,
            FieldAccessFlags::Protected => 0x0004,
            FieldAccessFlags::Static => 0x0008,
            FieldAccessFlags::Final => 0x0010,
            FieldAccessFlags::Volatile => 0x0040,
            FieldAccessFlags::Synthetic => 0x1000,
            FieldAccessFlags::Enum => 0x4000,
        }
    }

    /// The flags whose bit is set in `val`, in declaration order.
    pub open spec fn spec_and_mask(val: u16) -> Seq<FieldAccessFlags> {
        let s = Seq::<FieldAccessFlags>::empty();
        let s = if val & 0x0001 != 0 {
            s.push(FieldAccessFlags::Public)
        } else {
            s
        };
        let s = if val & 0x0002 != 0 {
            s.push(FieldAccessFlags::Private)
        } else {
            s
        };
        let s = if val & 0x0004 != 0 {
            s.push(FieldAccessFlags::Protected)
        } else {
            s
        };
        let s = if val & 0x0008 != 0 {
            s.push(FieldAccessFlags::Static)
        } else {
            s
        };
        let s = if val & 0x0010 != 0 {
            s.push(FieldAccessFlags::Final)
        } else {
            s
        };
        let s = if val & 0x0040 != 0 {
            s.push(FieldAccessFlags::Volatile)
        } else {
            s
        };
        let s = if val & 0x1000 != 0 {
            s.push(FieldAccessFlags::Synthetic)
        } else {
            s
        };
        let s = if val & 0x4000 != 0 {
            s.push(FieldAccessFlags::Enum)
        } else {
            s
        };
        s
    }

    /// Decode a bitmask word into the set of flags it represents.
    pub fn and_mask(val: u16) -> (r: Vec<FieldAccessFlags>)
        ensures
            r@ == Self::spec_and_mask(val),
    {
        let mut ret: Vec<FieldAccessFlags> = Vec::new();
        if val & 0x0001 != 0 {
            ret.push(FieldAccessFlags::Public);
        }
        if val & 0x0002 != 0 {
            ret.push(FieldAccessFlags::Private);
        }
        if val & 0x0004 != 0 {
            ret.push(FieldAccessFlags::Protected);
        }
        if val & 0x0008 != 0 {
            ret.push(FieldAccessFlags::Static);
        }
        if val & 0x0010 != 0 {
            ret.push(FieldAccessFlags::Final);
        }
        if val & 0x0040 != 0 {
            ret.push(FieldAccessFlags::Volatile);
        }
        if val & 0x1000 != 0 {
            ret.push(FieldAccessFlags::Synthetic);
        }
        if val & 0x4000 != 0 {
            ret.push(FieldAccessFlags::Enum);
        }
        ret
    }
}

/// Access flags of a method.
#[derive(Copy, Clone, Debug, PartialEq, Eq, Structural)]
pub enum MethodAccessFlags {
    Public,
    Private,
    Protected,
    Static,
    Final,
    Synchronized,
    Bridge,
    Varargs,
    Native,
    Abstract,
    Strict,
    Synthetic,
}

impl MethodAccessFlags {
    /// The bit each flag occupies in the access-flag word.
    pub open spec fn bit(self) -> u16 {
        match self {
            MethodAccessFlags::Public => 0x0001,
            MethodAccessFlags::Private => 0x0002,
            MethodAccessFlags::Protected => 0x0004,
            MethodAccessFlags::Static => 0x0008,
            MethodAccessFlags::Final => 0x0010,
            MethodAccessFlags::Synchronized => 0x0020,
            MethodAccessFlags::Bridge => 0x0040,
            MethodAccessFlags::Varargs => 0x0080,
            MethodAccessFlags::Native => 0x0100,
            MethodAccessFlags::Abstract => 0x0400,
            MethodAccessFlags::Strict => 0x0800,
            MethodAccessFlags::Synthetic => 0x1000,
        }
    }

    /// The flags whose bit is set in `val`, in declaration order.
    pub open spec fn spec_and_mask(val: u16) -> Seq<MethodAccessFlags> {
        let s = Seq::<MethodAccessFlags>::empty();
        let s = if val & 0x0001 != 0 {
            s.push(MethodAccessFlags::Public)
        } else {
            s
        };
        let s = if val & 0x0002 != 0 {
            s.push(MethodAccessFlags::Private)
        } else {
            s
        };
        let s = if val & 0x0004 != 0 {
            s.push(MethodAccessFlags::Protected)
        } else {
            s
        };
        let s = if val & 0x0008 != 0 {
            s.push(MethodAccessFlags::Static)
        } else {
            s
        };
        let s = if val & 0x0010 != 0 {
            s.push(MethodAccessFlags::Final)
        } else {
            s
        };
        let s = if val & 0x0020 != 0 {
            s.push(MethodAccessFlags::Synchronized)
        } else {
            s
        };
        let s = if val & 0x0040 != 0 {
            s.push(MethodAccessFlags::Bridge)
        } else {
            s
        };
        let s = if val & 0x0080 != 0 {
            s.push(MethodAccessFlags::Varargs)
        } else {
            s
        };
        let s = if val & 0x0100 != 0 {
            s.push(MethodAccessFlags::Native)
        } else {
            s
        };
        let s = if val & 0x0400 != 0 {
            s.push(MethodAccessFlags::Abstract)
        } else {
            s
        };
        let s = if val & 0x0800 != 0 {
            s.push(MethodAccessFlags::Strict)
        } else {
            s
        };
        let s = if val & 0x1000 != 0 {
            s.push(MethodAccessFlags::Synthetic)
        } else {
            s
        };
        s
    }

    /// Decode a bitmask word into the set of flags it represents.
    pub fn and_mask(val: u16) -> (r: Vec<MethodAccessFlags>)
        ensures
            r@ == Self::spec_and_mask(val),
    {
        let mut ret: Vec<MethodAccessFlags> = Vec::new();
        if val & 0x0001 != 0 {
            ret.push(MethodAccessFlags::Public);
        }
        if val & 0x0002 != 0 {
            ret.push(MethodAccessFlags::Private);
        }
        if val & 0x0004 != 0 {
            ret.push(MethodAccessFlags::Protected);
        }
        if val & 0x0008 != 0 {
            ret.push(MethodAccessFlags::Static);
        }
        if val & 0x0010 != 0 {
            ret.push(MethodAccessFlags::Final);
        }
        if val & 0x0020 != 0 {
            ret.push(MethodAccessFlags::Synchronized);
        }
        if val & 0x0040 != 0 {
            ret.push(MethodAccessFlags::Bridge);
        }
        if val & 0x0080 != 0 {
            ret.push(MethodAccessFlags::Varargs);
        }
        if val & 0x0100 != 0 {
            ret.push(MethodAccessFlags::Native);
        }
        if val & 0x0400 != 0 {
            ret.push(MethodAccessFlags::Abstract);
        }
        if val & 0x0800 != 0 {
            ret.push(MethodAccessFlags::Strict);
        }
        if val & 0x1000 != 0 {
            ret.push(MethodAccessFlags::Synthetic);
        }
        ret
    }
}

/// The tag byte of a constant-pool entry.
#[derive(Copy, Clone, Debug, PartialEq, Eq, Structural)]
pub enum PoolTag {
    Class,
    FieldRef,
    MethodRef,
    InterfaceMethodRef,
    Str,
    Integer,
    Float,
    Long,
    Double,
    NameAndType,
    Utf8,
    MethodHandle,
    MethodType,
    InvokeDynamic,
}

/// The pool tag a byte names, if any.
pub open spec fn spec_pool_tag(b: u8) -> Option<PoolTag> {
    if b == 7 {
        Some(PoolTag::Class)
    } else if b == 9 {
        Some(PoolTag::FieldRef)
    } else if b == 10 {
        Some(PoolTag::MethodRef)
    } else if b == 11 {
        Some(PoolTag::InterfaceMethodRef)
    } else if b == 8 {
        Some(PoolTag::Str)
    } else if b == 3 {
        Some(PoolTag::Integer)
    } else if b == 4 {
        Some(PoolTag::Float)
    } else if b == 5 {
        Some(PoolTag::Long)
    } else if b == 6 {
        Some(PoolTag::Double)
    } else if b == 12 {
        Some(PoolTag::NameAndType)
    } else if b == 1 {
        Some(PoolTag::Utf8)
    } else if b == 15 {
        Some(PoolTag::MethodHandle)
    } else if b == 16 {
        Some(PoolTag::MethodType)
    } else if b == 18 {
        Some(PoolTag::InvokeDynamic)
    } else {
        None
    }
}

/// Decode a constant-pool tag byte.
pub fn parse_const_pool_tag(b: u8) -> (r: Option<PoolTag>)
    ensures
        r == spec_pool_tag(b),
{
    if b == 7 {
        Some(PoolTag::Class)
    } else if b == 9 {
        Some(PoolTag::FieldRef)
    } else if b == 10 {
        Some(PoolTag::MethodRef)
    } else if b == 11 {
        Some(PoolTag::InterfaceMethodRef)
    } else if b == 8 {
        Some(PoolTag::Str)
    } else if b == 3 {
        Some(PoolTag::Integer)
    } else if b == 4 {
        Some(PoolTag::Float)
    } else if b == 5 {
        Some(PoolTag::Long)
    } else if b == 6 {
        Some(PoolTag::Double)
    } else if b == 12 {
        Some(PoolTag::NameAndType)
    } else if b == 1 {
        Some(PoolTag::Utf8)
    } else if b == 15 {
        Some(PoolTag::MethodHandle)
    } else if b == 16 {
        Some(PoolTag::MethodType)
    } else if b == 18 {
        Some(PoolTag::InvokeDynamic)
    } else {
        None
    }
}

/// The kind of reference a method handle holds.
#[derive(Copy, Clone, Debug, PartialEq, Eq, Structural)]
pub enum MethodDescriptor {
    GetField,
    GetStatic,
    PutField,
    PutStatic,
    InvokeVirtual,
    InvokeStatic,
    InvokeSpecial,
    NewInvokeSpecial,
    InvokeInterface,
}

/// The method-handle kind a byte names, if any.
pub open spec fn spec_method_descriptor(b: u8) -> Option<MethodDescriptor> {
    if b == 1 {
        Some(MethodDescriptor::GetField)
    } else if b == 2 {
        Some(MethodDescriptor::GetStatic)
    } else if b == 3 {
        Some(MethodDescriptor::PutField)
    } else if b == 4 {
        Some(MethodDescriptor::PutStatic)
    } else if b == 5 {
        Some(MethodDescriptor::InvokeVirtual)
    } else if b == 6 {
        Some(MethodDescriptor::InvokeStatic)
    } else if b == 7 {
        Some(MethodDescriptor::InvokeSpecial)
    } else if b == 8 {
        Some(MethodDescriptor::NewInvokeSpecial)
    } else if b == 9 {
        Some(MethodDescriptor::InvokeInterface)
    } else {
        None
    }
}

/// Decode a method-handle kind byte.
pub fn parse_method_descriptor(b: u8) -> (r: Option<MethodDescriptor>)
    ensures
        r == spec_method_descriptor(b),
{
    if b == 1 {
        Some(MethodDescriptor::GetField)
    } else if b == 2 {
        Some(MethodDescriptor::GetStatic)
    } else if b == 3 {
        Some(MethodDescriptor::PutField)
    } else if b == 4 {
        Some(MethodDescriptor::PutStatic)
    } else if b == 5 {
        Some(MethodDescriptor::InvokeVirtual)
    } else if b == 6 {
        Some(MethodDescriptor::InvokeStatic)
    } else if b == 7 {
        Some(MethodDescriptor::InvokeSpecial)
    } else if b == 8 {
        Some(MethodDescriptor::NewInvokeSpecial)
    } else if b == 9 {
        Some(MethodDescriptor::InvokeInterface)
    } else {
        None
    }
}

} // verus!
