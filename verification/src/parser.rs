//! The recursive-descent decoder for the mangled-symbol grammar.
//!
//! `ParserState` holds the shrinking view over the remaining input bytes
//! and the ten-slot name back-reference cache. Every decoding function is
//! proved to return exactly what the functional model in `model` says for
//! its input, so the whole decode is a function of the input bytes alone.
use vstd::prelude::*;

use crate::ast::{lemma_names_v_push, lemma_types_v_props, lemma_types_v_push, name_v, names_v,
    opt_params_v, params_v, type_v, types_v, Name, NameSequence, NameV, Op, Params, ParseResult,
    Type, TypeV};
use crate::error::{Error, ErrorKind};
use crate::flags::{spec_sc, CallingConv, FuncClass, StorageClass};
use crate::model::{acc_of, at_pos, begins1, begins2, begins3, conv_of, ext_of, fc_of,
    is_digit_byte, lemma_at_pos, op1_of, op2_of, prim_of, sc_of, sp_array,
    sp_cache_step, sp_calling_conv, sp_func_access_class, sp_func_class, sp_func_ptr,
    sp_func_return_type, sp_hex, sp_memorize, sp_name, sp_name_loop, sp_number, sp_operator,
    sp_operator_name, sp_params, sp_params_loop, sp_parse, sp_parse_tail, sp_pointee,
    sp_member, sp_nested_array, sp_nonmember, sp_storage_class, sp_storage_class_for_return,
    sp_string, sp_var_type, as_i32, spec_fc_acc, spec_fc_global, SpOut, SpRes};

verus! {

/// The decoder state: the remaining input, and the first ten names seen,
/// which a single digit can reference back.
pub struct ParserState<'a> {
    pub input: &'a [u8],
    pub memorized_names: Vec<&'a [u8]>,
}

impl<'a> ParserState<'a> {
    /// The remaining input bytes.
    pub open spec fn rem(&self) -> Seq<u8> {
        self.input@
    }

    /// The name back-reference cache, as the model sees it.
    pub open spec fn names(&self) -> Seq<Seq<u8>> {
        Seq::new(self.memorized_names@.len(), |i: int| self.memorized_names@[i]@)
    }

    /// The cache invariant: never more than ten names are memorized.
    pub open spec fn wf(&self) -> bool {
        self.names().len() <= 10
    }

    pub fn peek(&self) -> (r: Option<u8>)
        ensures
            r == (if self.rem().len() > 0 {
                Some(self.rem()[0])
            } else {
                Option::<u8>::None
            }),
    {
        if self.input.len() > 0 {
            Some(self.input[0])
        } else {
            None
        }
    }

    pub fn trim(&mut self, len: usize)
        requires
            len <= old(self).rem().len(),
        ensures
            final(self).rem() == old(self).rem().skip(len as int),
            final(self).names() == old(self).names(),
            final(self).memorized_names == old(self).memorized_names,
    {
        self.input = vstd::slice::slice_subrange(self.input, len, self.input.len());
    }

    pub fn get(&mut self) -> (r: Result<u8, Error>)
        ensures
            final(self).names() == old(self).names(),
            final(self).memorized_names == old(self).memorized_names,
            match r {
                Ok(b) => old(self).rem().len() > 0 && b == old(self).rem()[0] && final(self).rem()
                    == old(self).rem().skip(1),
                Err(e) => old(self).rem().len() == 0 && final(self).rem() == old(self).rem()
                    && e.kind == ErrorKind::UnexpectedEndOfInput && e.offender@ == old(self).rem(),
            },
    {
        match self.peek() {
            Some(first) => {
                self.trim(1);
                Ok(first)
            },
            None => {
                let e = Error::new(ErrorKind::UnexpectedEndOfInput, Vec::new());
                proof {
                    assert(e.offender@ =~= old(self).rem());
                }
                Err(e)
            },
        }
    }

    pub fn consume(&mut self, b: u8) -> (r: bool)
        ensures
            final(self).names() == old(self).names(),
            final(self).memorized_names == old(self).memorized_names,
            r == begins1(old(self).rem(), b),
            final(self).rem() == (if r {
                old(self).rem().skip(1)
            } else {
                old(self).rem()
            }),
    {
        if self.input.len() >= 1 && self.input[0] == b {
            self.trim(1);
            true
        } else {
            false
        }
    }

    pub fn consume2(&mut self, a: u8, b: u8) -> (r: bool)
        ensures
            final(self).names() == old(self).names(),
            final(self).memorized_names == old(self).memorized_names,
            r == begins2(old(self).rem(), a, b),
            final(self).rem() == (if r {
                old(self).rem().skip(2)
            } else {
                old(self).rem()
            }),
    {
        if self.input.len() >= 2 && self.input[0] == a && self.input[1] == b {
            self.trim(2);
            true
        } else {
            false
        }
    }

    pub fn consume3(&mut self, a: u8, b: u8, c: u8) -> (r: bool)
        ensures
            final(self).names() == old(self).names(),
            final(self).memorized_names == old(self).memorized_names,
            r == begins3(old(self).rem(), a, b, c),
            final(self).rem() == (if r {
                old(self).rem().skip(3)
            } else {
                old(self).rem()
            }),
    {
        if self.input.len() >= 3 && self.input[0] == a && self.input[1] == b && self.input[2]
            == c {
            self.trim(3);
            true
        } else {
            false
        }
    }

    pub fn expect(&mut self, b: u8) -> (r: Result<(), Error>)
        ensures
            final(self).names() == old(self).names(),
            final(self).memorized_names == old(self).memorized_names,
            match r {
                Ok(_) => begins1(old(self).rem(), b) && final(self).rem() == old(self).rem().skip(
                    1,
                ),
                Err(e) => !begins1(old(self).rem(), b) && final(self).rem() == old(self).rem()
                    && e.kind == ErrorKind::UnexpectedByte && e.offender@ == old(self).rem(),
            },
    {
        if !self.consume(b) {
            let off = self.rest_vec();
            Err(Error::new(ErrorKind::UnexpectedByte, off))
        } else {
            Ok(())
        }
    }

    pub fn consume_digit(&mut self) -> (r: Option<u8>)
        ensures
            final(self).names() == old(self).names(),
            final(self).memorized_names == old(self).memorized_names,
            match r {
                Some(d) => old(self).rem().len() > 0 && is_digit_byte(old(self).rem()[0])
                    && d as int == old(self).rem()[0] - ('0' as u8)
                    && final(self).rem() == old(self).rem().skip(1),
                None => !(old(self).rem().len() > 0 && is_digit_byte(old(self).rem()[0]))
                    && final(self).rem() == old(self).rem(),
            },
    {
        match self.peek() {
            Some(first) => {
                if ('0' as u8) <= first && first <= ('9' as u8) {
                    self.trim(1);
                    Some(first - ('0' as u8))
                } else {
                    None
                }
            },
            None => None,
        }
    }

    /// A copy of the remaining input, for an error's offender field.
    pub fn rest_vec(&self) -> (v: Vec<u8>)
        ensures
            v@ == self.rem(),
    {
        let mut v: Vec<u8> = Vec::new();
        let n = self.input.len();
        let mut i: usize = 0;
        while i < n
            invariant
                n == self.rem().len(),
                i <= n,
                v@ == self.rem().take(i as int),
            decreases n - i,
        {
            v.push(self.input[i]);
            proof {
                assert(self.rem().take(i + 1) =~= self.rem().take(i as int).push(
                    self.rem()[i as int],
                ));
            }
            i = i + 1;
        }
        proof {
            assert(self.rem().take(n as int) =~= self.rem());
        }
        v
    }

    /// Memorize a name: kept only while fewer than ten are held and the
    /// name is new.
    pub fn memorize_string(&mut self, s: &'a [u8])
        requires
            old(self).wf(),
        ensures
            final(self).wf(),
            final(self).rem() == old(self).rem(),
            final(self).names() == sp_memorize(old(self).names(), s@),
    {
        let n = self.memorized_names.len();
        if n < 10 {
            let mut i: usize = 0;
            let mut found = false;
            while i < n && !found
                invariant
                    n == self.names().len(),
                    i <= n,
                    found ==> self.names().contains(s@),
                    !found ==> forall|j: int| 0 <= j < i ==> self.names()[j] != s@,
                decreases n - i,
            {
                if bytes_eq(self.memorized_names[i], s) {
                    found = true;
                    proof {
                        assert(self.names()[i as int] == s@);
                    }
                }
                i = i + 1;
            }
            if !found {
                proof {
                    assert(!self.names().contains(s@));
                }
                self.memorized_names.push(s);
                proof {
                    assert(self.names() =~= old(self).names().push(s@));
                }
            }
        } else {
            proof {
                assert(!(old(self).names().len() < 10));
            }
        }
    }
    /// Read raw identifier bytes up to the next `@`. The bytes are not
    /// inspected: text validity is checked where the decoded output is
    /// assembled.
    pub fn read_string(&mut self) -> (r: Result<&'a [u8], Error>)
        ensures
            final(self).names() == old(self).names(),
            final(self).memorized_names == old(self).memorized_names,
            match r {
                Ok(s) => {
                    let o = sp_string(old(self).rem());
                    &&& o is Good
                    &&& s@ == o->v
                    &&& final(self).rem() == o->rem
                    &&& final(self).rem().len() < old(self).rem().len()
                },
                Err(e) => {
                    let o = sp_string(old(self).rem());
                    &&& o is Bad
                    &&& e.matches(o.err())
                    &&& final(self).rem() == old(self).rem()
                },
            },
    {
        proof {
            lemma_at_pos(self.rem());
        }
        let n = self.input.len();
        let mut i: usize = 0;
        while i < n && self.input[i] != ('@' as u8)
            invariant
                n == self.rem().len(),
                i <= n,
                forall|j: int| 0 <= j < i ==> self.rem()[j] != ('@' as u8),
            decreases n - i,
        {
            i = i + 1;
        }
        if i == n {
            // no terminator: at_pos is None
            let off = self.rest_vec();
            return Err(Error::new(ErrorKind::UnexpectedEndOfInput, off));
        }
        proof {
            assert(at_pos(self.rem()) == Some(i as int));
        }
        let ret = vstd::slice::slice_subrange(self.input, 0, i);
        proof {
            assert(ret@ =~= self.rem().take(i as int));
        }
        self.trim(i + 1);
        Ok(ret)
    }

    /// Read a compactly-encoded number: an optional `?` negation, one
    /// digit meaning `digit + 1`, or a hex run of `A`-`P` closed by `@`.
    pub fn read_number(&mut self) -> (r: Result<i32, Error>)
        ensures
            final(self).names() == old(self).names(),
            final(self).memorized_names == old(self).memorized_names,
            match r {
                Ok(v) => {
                    let o = sp_number(old(self).rem());
                    &&& o is Good
                    &&& v as int == o->v
                    &&& final(self).rem() == o->rem
                    &&& final(self).rem().len() < old(self).rem().len()
                },
                Err(e) => {
                    let o = sp_number(old(self).rem());
                    &&& o is Bad
                    &&& e.matches(o.err())
                },
            },
    {
        let neg = self.consume('?' as u8);
        if let Some(d) = self.consume_digit() {
            let v = (d + 1) as i32;
            return Ok(if neg { -v } else { v });
        }
        let orig: &'a [u8] = self.input;
        let ghost r1 = self.rem();
        proof {
            assert(r1 == (if begins1(old(self).rem(), '?' as u8) {
                old(self).rem().skip(1)
            } else {
                old(self).rem()
            }));
        }
        let mut acc: u32 = 0;
        loop
            invariant
                self.rem().len() <= r1.len(),
                self.names() == old(self).names(),
                self.memorized_names == old(self).memorized_names,
                orig@ == r1,
                neg == begins1(old(self).rem(), '?' as u8),
                r1 == (if neg {
                    old(self).rem().skip(1)
                } else {
                    old(self).rem()
                }),
                !(r1.len() > 0 && is_digit_byte(r1[0])),
                sp_hex(r1, r1, 0) == sp_hex(r1, self.rem(), acc as int),
            decreases self.rem().len(),
        {
            let b = match self.peek() {
                Some(b) => b,
                None => {
                    let off = vstd::slice::slice_to_vec(orig);
                    return Err(Error::new(ErrorKind::UnterminatedNumber, off));
                },
            };
            if b == ('@' as u8) {
                self.trim(1);
                let u: u32 = if neg {
                    if acc == 0 {
                        0
                    } else {
                        (0xFFFF_FFFFu32 - acc) + 1
                    }
                } else {
                    acc
                };
                proof {
                    if neg {
                        if acc == 0 {
                            vstd::arithmetic::div_mod::lemma_mod_self_0(0x1_0000_0000int);
                        } else {
                            vstd::arithmetic::div_mod::lemma_small_mod(
                                (0x1_0000_0000 - acc as int) as nat,
                                0x1_0000_0000nat,
                            );
                        }
                    }
                    assert(u as int == (if neg {
                        (0x1_0000_0000 - acc as int) % 0x1_0000_0000
                    } else {
                        acc as int
                    }));
                }
                let v: i32 = if u <= 0x7FFF_FFFFu32 {
                    u as i32
                } else {
                    let m: u32 = u - 0x8000_0000u32;
                    ((m as i32) - 0x7FFF_FFFFi32) - 1
                };
                proof {
                    assert(v as int == as_i32(u as int));
                }
                return Ok(v);
            } else if ('A' as u8) <= b && b <= ('P' as u8) {
                self.trim(1);
                let nib = (b - ('A' as u8)) as u32;
                let acc2: u32 = (acc % 0x1000_0000u32) * 16 + nib;
                proof {
                    lemma_wrap_step(acc as int, nib as int);
                }
                acc = acc2;
            } else {
                let off = vstd::slice::slice_to_vec(orig);
                return Err(Error::new(ErrorKind::UnterminatedNumber, off));
            }
        }
    }

    /// Decode an operator code through the operator table.
    pub fn read_operator_name(&mut self) -> (r: Result<Op, Error>)
        ensures
            final(self).names() == old(self).names(),
            final(self).memorized_names == old(self).memorized_names,
            match r {
                Ok(op) => {
                    let o = sp_operator_name(old(self).rem());
                    &&& o is Good
                    &&& op == o->v
                    &&& final(self).rem() == o->rem
                    &&& final(self).rem().len() < old(self).rem().len()
                },
                Err(e) => {
                    let o = sp_operator_name(old(self).rem());
                    &&& o is Bad
                    &&& e.matches(o.err())
                },
            },
    {
        let orig: &'a [u8] = self.input;
        let b = match self.get() {
            Ok(b) => b,
            Err(e) => {
                return Err(e);
            },
        };
        if b == ('_' as u8) {
            let c = match self.get() {
                Ok(c) => c,
                Err(e) => {
                    return Err(e);
                },
            };
            if c == ('_' as u8) {
                if self.consume('L' as u8) {
                    Ok(Op::CoAwait)
                } else {
                    let off = vstd::slice::slice_to_vec(orig);
                    Err(Error::new(ErrorKind::UnknownOperatorCode, off))
                }
            } else {
                match op2_x(c) {
                    Some(op) => Ok(op),
                    None => {
                        let off = vstd::slice::slice_to_vec(orig);
                        Err(Error::new(ErrorKind::UnknownOperatorCode, off))
                    },
                }
            }
        } else {
            match op1_x(b) {
                Some(op) => Ok(op),
                None => {
                    let off = vstd::slice::slice_to_vec(orig);
                    Err(Error::new(ErrorKind::UnknownOperatorCode, off))
                },
            }
        }
    }

    /// Decode an operator segment: the code, then — unless `@` follows —
    /// the echoed identifier, which is memorized.
    pub fn read_operator(&mut self) -> (r: Result<(Op, Option<&'a [u8]>), Error>)
        requires
            old(self).wf(),
        ensures
            final(self).wf(),
            match r {
                Ok(p) => {
                    let o = sp_operator(old(self).rem(), old(self).names());
                    &&& o is Good
                    &&& p.0 == o->v.0
                    &&& (match p.1 {
                        Some(s) => o->v.1 is Some && s@ == o->v.1->0,
                        None => o->v.1 is None,
                    })
                    &&& final(self).rem() == o->rem
                    &&& final(self).names() == o->names
                    &&& final(self).rem().len() < old(self).rem().len()
                },
                Err(e) => {
                    let o = sp_operator(old(self).rem(), old(self).names());
                    &&& o is Bad
                    &&& e.matches(o.err())
                },
            },
    {
        let op = match self.read_operator_name() {
            Ok(op) => op,
            Err(e) => {
                return Err(e);
            },
        };
        let at_next = match self.peek() {
            Some(b) => b == ('@' as u8),
            None => false,
        };
        if at_next {
            Ok((op, None))
        } else {
            let op_str = match self.read_string() {
                Ok(s) => s,
                Err(e) => {
                    return Err(e);
                },
            };
            self.memorize_string(op_str);
            Ok((op, Some(op_str)))
        }
    }

    /// Decode a function-class byte through its table.
    pub fn read_func_class(&mut self) -> (r: Result<FuncClass, Error>)
        ensures
            final(self).names() == old(self).names(),
            final(self).memorized_names == old(self).memorized_names,
            match r {
                Ok(fc) => {
                    let o = sp_func_class(old(self).rem());
                    &&& o is Good
                    &&& fc == o->v
                    &&& final(self).rem() == o->rem
                    &&& final(self).rem().len() < old(self).rem().len()
                },
                Err(e) => {
                    let o = sp_func_class(old(self).rem());
                    &&& o is Bad
                    &&& e.matches(o.err())
                },
            },
    {
        let orig: &'a [u8] = self.input;
        let b = match self.get() {
            Ok(b) => b,
            Err(e) => {
                return Err(e);
            },
        };
        match fc_x(b) {
            Some(fc) => Ok(fc),
            None => {
                let off = vstd::slice::slice_to_vec(orig);
                Err(Error::new(ErrorKind::UnknownFunctionClassByte, off))
            },
        }
    }

    /// Decode an optional access qualifier on a member function.
    pub fn read_func_access_class(&mut self) -> (r: StorageClass)
        ensures
            final(self).names() == old(self).names(),
            final(self).memorized_names == old(self).memorized_names,
            r == sp_func_access_class(old(self).rem()).0,
            final(self).rem() == sp_func_access_class(old(self).rem()).1,
    {
        match self.peek() {
            Some(b) => match acc_x(b) {
                Some(sc) => {
                    self.trim(1);
                    sc
                },
                None => StorageClass::empty(),
            },
            None => StorageClass::empty(),
        }
    }

    /// Decode a calling-convention byte through its table.
    pub fn read_calling_conv(&mut self) -> (r: Result<CallingConv, Error>)
        ensures
            final(self).names() == old(self).names(),
            final(self).memorized_names == old(self).memorized_names,
            match r {
                Ok(c) => {
                    let o = sp_calling_conv(old(self).rem());
                    &&& o is Good
                    &&& c == o->v
                    &&& final(self).rem() == o->rem
                    &&& final(self).rem().len() < old(self).rem().len()
                },
                Err(e) => {
                    let o = sp_calling_conv(old(self).rem());
                    &&& o is Bad
                    &&& e.matches(o.err())
                },
            },
    {
        let orig: &'a [u8] = self.input;
        let b = match self.get() {
            Ok(b) => b,
            Err(e) => {
                return Err(e);
            },
        };
        match conv_x(b) {
            Some(c) => Ok(c),
            None => {
                let off = vstd::slice::slice_to_vec(orig);
                Err(Error::new(ErrorKind::UnknownCallingConventionByte, off))
            },
        }
    }

    /// Decode an optional storage-class byte on a pointee.
    pub fn read_storage_class(&mut self) -> (r: StorageClass)
        ensures
            final(self).names() == old(self).names(),
            final(self).memorized_names == old(self).memorized_names,
            r == sp_storage_class(old(self).rem()).0,
            final(self).rem() == sp_storage_class(old(self).rem()).1,
    {
        match self.peek() {
            Some(b) => match sc_x(b) {
                Some(sc) => {
                    self.trim(1);
                    sc
                },
                None => StorageClass::empty(),
            },
            None => StorageClass::empty(),
        }
    }

    /// Decode the optional `?`-introduced qualifier on a return value.
    pub fn read_storage_class_for_return(&mut self) -> (r: Result<StorageClass, Error>)
        ensures
            final(self).names() == old(self).names(),
            final(self).memorized_names == old(self).memorized_names,
            match r {
                Ok(sc) => {
                    let o = sp_storage_class_for_return(old(self).rem());
                    &&& o is Good
                    &&& sc == o->v
                    &&& final(self).rem() == o->rem
                    &&& final(self).rem().len() <= old(self).rem().len()
                },
                Err(e) => {
                    let o = sp_storage_class_for_return(old(self).rem());
                    &&& o is Bad
                    &&& e.matches(o.err())
                },
            },
    {
        if !self.consume('?' as u8) {
            return Ok(StorageClass::empty());
        }
        let orig: &'a [u8] = self.input;
        let b = match self.get() {
            Ok(b) => b,
            Err(e) => {
                return Err(e);
            },
        };
        match acc_x(b) {
            Some(sc) => Ok(sc),
            None => {
                let off = vstd::slice::slice_to_vec(orig);
                Err(Error::new(ErrorKind::UnknownStorageClassByte, off))
            },
        }
    }

    /// Whether the next byte is `b`, without consuming it.
    fn next_is(&self, b: u8) -> (r: bool)
        ensures
            r == begins1(self.rem(), b),
    {
        match self.peek() {
            Some(c) => c == b,
            None => false,
        }
    }

    /// Whether the remaining input starts with a parameter-list terminator.
    fn at_list_end(&self) -> (r: bool)
        ensures
            r == (begins1(self.rem(), '@' as u8) || begins1(self.rem(), 'Z' as u8)),
    {
        match self.peek() {
            Some(c) => c == ('@' as u8) || c == ('Z' as u8),
            None => false,
        }
    }

    /// Decode one variable type: the full type-grammar dispatch.
    #[verifier::rlimit(100)]
    pub fn read_var_type(&mut self, sc: StorageClass) -> (r: Result<Type<'a>, Error>)
        requires
            old(self).wf(),
        ensures
            final(self).wf(),
            match r {
                Ok(t) => {
                    let o = sp_var_type(old(self).rem(), old(self).names(), sc);
                    &&& o is Good
                    &&& type_v(t) == o->v
                    &&& final(self).rem() == o->rem
                    &&& final(self).names() == o->names
                    &&& final(self).rem().len() < old(self).rem().len()
                },
                Err(e) => {
                    let o = sp_var_type(old(self).rem(), old(self).names(), sc);
                    &&& o is Bad
                    &&& e.matches(o.err())
                },
            },
        decreases self.rem().len(), 0int, 0int,
    {
        if self.consume2('W' as u8, '4' as u8) {
            let ns = match self.read_name() {
                Ok(ns) => ns,
                Err(e) => {
                    return Err(e);
                },
            };
            return Ok(Type::Enum(ns, sc));
        }
        if self.consume3('P' as u8, '6' as u8, 'A' as u8) {
            return self.read_func_ptr(sc);
        }
        let orig: &'a [u8] = self.input;
        let b = match self.get() {
            Ok(b) => b,
            Err(e) => {
                return Err(e);
            },
        };
        if b == ('T' as u8) || b == ('U' as u8) || b == ('V' as u8) {
            let ns = match self.read_name() {
                Ok(ns) => ns,
                Err(e) => {
                    return Err(e);
                },
            };
            if b == ('T' as u8) {
                Ok(Type::Union(ns, sc))
            } else if b == ('U' as u8) {
                Ok(Type::Struct(ns, sc))
            } else {
                Ok(Type::Class(ns, sc))
            }
        } else if b == ('A' as u8) || b == ('P' as u8) || b == ('Q' as u8) {
            let inner = match self.read_pointee() {
                Ok(t) => t,
                Err(e) => {
                    return Err(e);
                },
            };
            if b == ('A' as u8) {
                Ok(Type::Ref(Box::new(inner), sc))
            } else if b == ('P' as u8) {
                Ok(Type::Ptr(Box::new(inner), sc))
            } else {
                Ok(Type::Ptr(Box::new(inner), StorageClass::flags(true, false, false)))
            }
        } else if b == ('Y' as u8) {
            self.read_array()
        } else {
            match prim_x(b, sc) {
                Some(t) => Ok(t),
                None => {
                    if b == ('_' as u8) {
                        let c = match self.get() {
                            Ok(c) => c,
                            Err(e) => {
                                return Err(e);
                            },
                        };
                        match ext_x(c, sc) {
                            Some(t) => Ok(t),
                            None => {
                                let off = vstd::slice::slice_to_vec(orig);
                                Err(Error::new(ErrorKind::UnknownPrimitiveTypeByte, off))
                            },
                        }
                    } else {
                        let off = vstd::slice::slice_to_vec(orig);
                        Err(Error::new(ErrorKind::UnknownPrimitiveTypeByte, off))
                    }
                },
            }
        }
    }

    /// Decode a pointee: an optional 64-bit marker, a storage class, then
    /// the type it qualifies.
    pub fn read_pointee(&mut self) -> (r: Result<Type<'a>, Error>)
        requires
            old(self).wf(),
        ensures
            final(self).wf(),
            match r {
                Ok(t) => {
                    let o = sp_pointee(old(self).rem(), old(self).names());
                    &&& o is Good
                    &&& type_v(t) == o->v
                    &&& final(self).rem() == o->rem
                    &&& final(self).names() == o->names
                    &&& final(self).rem().len() < old(self).rem().len()
                },
                Err(e) => {
                    let o = sp_pointee(old(self).rem(), old(self).names());
                    &&& o is Bad
                    &&& e.matches(o.err())
                },
            },
        decreases self.rem().len(), 0int, 1int,
    {
        let _is_64bit_ptr = self.consume('E' as u8);
        let storage_class = self.read_storage_class();
        self.read_var_type(storage_class)
    }

    /// Decode an array: a positive dimension count, then that many
    /// lengths.
    pub fn read_array(&mut self) -> (r: Result<Type<'a>, Error>)
        requires
            old(self).wf(),
        ensures
            final(self).wf(),
            match r {
                Ok(t) => {
                    let o = sp_array(old(self).rem(), old(self).names());
                    &&& o is Good
                    &&& type_v(t) == o->v
                    &&& final(self).rem() == o->rem
                    &&& final(self).names() == o->names
                    &&& final(self).rem().len() < old(self).rem().len()
                },
                Err(e) => {
                    let o = sp_array(old(self).rem(), old(self).names());
                    &&& o is Bad
                    &&& e.matches(o.err())
                },
            },
        decreases self.rem().len(), 0int, 1int,
    {
        let dimension = match self.read_number() {
            Ok(d) => d,
            Err(e) => {
                return Err(e);
            },
        };
        if dimension <= 0 {
            let off = self.rest_vec();
            return Err(Error::new(ErrorKind::InvalidArrayDimension, off));
        }
        let p = match self.read_nested_array(dimension) {
            Ok(p) => p,
            Err(e) => {
                return Err(e);
            },
        };
        Ok(p.0)
    }

    /// Decode the nested array levels: one length per level, then the
    /// innermost `$$C` qualifier triplet (if present) and the element
    /// type. The innermost qualifier is carried up to every level.
    #[verifier::rlimit(100)]
    pub fn read_nested_array(&mut self, dimension: i32) -> (r: Result<
        (Type<'a>, StorageClass),
        Error,
    >)
        requires
            old(self).wf(),
        ensures
            final(self).wf(),
            match r {
                Ok(p) => {
                    let o = sp_nested_array(old(self).rem(), dimension as int, old(self).names());
                    &&& o is Good
                    &&& type_v(p.0) == o->v.0
                    &&& p.1 == o->v.1
                    &&& final(self).rem() == o->rem
                    &&& final(self).names() == o->names
                    &&& final(self).rem().len() < old(self).rem().len()
                },
                Err(e) => {
                    let o = sp_nested_array(old(self).rem(), dimension as int, old(self).names());
                    &&& o is Bad
                    &&& e.matches(o.err())
                },
            },
        decreases self.rem().len(), 0int, 1int,
    {
        if dimension > 0 {
            let len = match self.read_number() {
                Ok(v) => v,
                Err(e) => {
                    return Err(e);
                },
            };
            let p = match self.read_nested_array(dimension - 1) {
                Ok(p) => p,
                Err(e) => {
                    return Err(e);
                },
            };
            let sc = p.1;
            Ok((Type::Array(len, Box::new(p.0), sc), sc))
        } else {
            let storage_class = if self.consume3('$' as u8, '$' as u8, 'C' as u8) {
                if self.consume('B' as u8) {
                    StorageClass::flags(true, false, false)
                } else if self.consume('C' as u8) || self.consume('D' as u8) {
                    StorageClass::flags(true, true, false)
                } else if !self.consume('A' as u8) {
                    let off = self.rest_vec();
                    return Err(Error::new(ErrorKind::UnknownStorageClassByte, off));
                } else {
                    StorageClass::empty()
                }
            } else {
                StorageClass::empty()
            };
            let t = match self.read_var_type(StorageClass::empty()) {
                Ok(t) => t,
                Err(e) => {
                    return Err(e);
                },
            };
            Ok((t, storage_class))
        }
    }

    /// Decode a pointer to a non-member function: return type, parameter
    /// list, and an optional trailing `@Z` or `Z` terminator.
    #[verifier::rlimit(100)]
    pub fn read_func_ptr(&mut self, sc: StorageClass) -> (r: Result<Type<'a>, Error>)
        requires
            old(self).wf(),
        ensures
            final(self).wf(),
            match r {
                Ok(t) => {
                    let o = sp_func_ptr(old(self).rem(), old(self).names(), sc);
                    &&& o is Good
                    &&& type_v(t) == o->v
                    &&& final(self).rem() == o->rem
                    &&& final(self).names() == o->names
                    &&& final(self).rem().len() < old(self).rem().len()
                },
                Err(e) => {
                    let o = sp_func_ptr(old(self).rem(), old(self).names(), sc);
                    &&& o is Bad
                    &&& e.matches(o.err())
                },
            },
        decreases self.rem().len(), 0int, 1int,
    {
        let return_type = match self.read_var_type(StorageClass::empty()) {
            Ok(t) => t,
            Err(e) => {
                return Err(e);
            },
        };
        let params = match self.read_params() {
            Ok(p) => p,
            Err(e) => {
                return Err(e);
            },
        };
        if !self.consume2('@' as u8, 'Z' as u8) {
            let _ = self.consume('Z' as u8);
        }
        let ps = match params {
            Some(p) => p,
            None => Params::empty(),
        };
        let ghost tps = types_v(ps.types@);
        let inner = Type::NonMemberFunction(ps, StorageClass::empty(), Box::new(return_type));
        proof {
            assert(type_v(inner) == TypeV::NonMemberFunction(
                tps,
                spec_sc(false, false, false),
                Box::new(type_v(return_type)),
            ));
        }
        let t = Type::Ptr(Box::new(inner), sc);
        proof {
            let o = sp_func_ptr(old(self).rem(), old(self).names(), sc);
            let o0 = sp_var_type(
                old(self).rem(),
                old(self).names(),
                spec_sc(false, false, false),
            );
            let o1 = sp_params(o0->rem, o0->names);
            assert(o is Good);
            assert(tps == (match o1->v {
                Some(ts) => ts,
                None => Seq::<TypeV>::empty(),
            }));
            assert(type_v(t) == o->v);
            assert(self.rem() == o->rem);
            assert(self.names() == o->names);
        }
        Ok(t)
    }

    /// Decode a member function's return type; `@` is the sentinel "no
    /// declared return type" used for constructors and destructors.
    pub fn read_func_return_type(&mut self, storage_class: StorageClass) -> (r: Result<
        Type<'a>,
        Error,
    >)
        requires
            old(self).wf(),
        ensures
            final(self).wf(),
            match r {
                Ok(t) => {
                    let o = sp_func_return_type(old(self).rem(), old(self).names(), storage_class);
                    &&& o is Good
                    &&& type_v(t) == o->v
                    &&& final(self).rem() == o->rem
                    &&& final(self).names() == o->names
                    &&& final(self).rem().len() < old(self).rem().len()
                },
                Err(e) => {
                    let o = sp_func_return_type(old(self).rem(), old(self).names(), storage_class);
                    &&& o is Bad
                    &&& e.matches(o.err())
                },
            },
        decreases self.rem().len(), 0int, 1int,
    {
        if self.consume('@' as u8) {
            Ok(Type::NoReturn)
        } else {
            self.read_var_type(storage_class)
        }
    }

    /// Decode a function-argument or template-argument list. The list's
    /// type back-reference cache is created fresh here and dies with the
    /// list: a digit can only resolve against types this list decoded.
    #[verifier::rlimit(100)]
    pub fn read_params(&mut self) -> (r: Result<Option<Params<'a>>, Error>)
        requires
            old(self).wf(),
        ensures
            final(self).wf(),
            match r {
                Ok(p) => {
                    let o = sp_params(old(self).rem(), old(self).names());
                    &&& o is Good
                    &&& opt_params_v(p) == o->v
                    &&& final(self).rem() == o->rem
                    &&& final(self).names() == o->names
                    &&& final(self).rem().len() <= old(self).rem().len()
                },
                Err(e) => {
                    let o = sp_params(old(self).rem(), old(self).names());
                    &&& o is Bad
                    &&& e.matches(o.err())
                },
            },
        decreases self.rem().len(), 0int, 3int,
    {
        let ghost orig_rem = self.rem();
        let ghost orig_names = self.names();
        let mut backref: Vec<Type<'a>> = Vec::new();
        let mut params: Vec<Type<'a>> = Vec::new();
        proof {
            assert(backref@ =~= Seq::<Type<'a>>::empty());
            assert(params@ =~= Seq::<Type<'a>>::empty());
        }
        while !self.at_list_end()
            invariant
                self.wf(),
                orig_rem == old(self).rem(),
                orig_names == old(self).names(),
                self.rem().len() <= orig_rem.len(),
                backref@.len() <= 10,
                sp_params_loop(orig_rem, orig_names, Seq::empty(), Seq::empty()) == sp_params_loop(
                    self.rem(),
                    self.names(),
                    types_v(backref@),
                    types_v(params@),
                ),
            decreases self.rem().len(),
        {
            let ghost pre_rem = self.rem();
            let ghost pre_names = self.names();
            let ghost cache = types_v(backref@);
            proof {
                lemma_types_v_props(backref@);
                lemma_types_v_props(params@);
            }
            if let Some(n) = self.consume_digit() {
                if (n as usize) >= backref.len() {
                    let off = self.rest_vec();
                    return Err(Error::new(ErrorKind::InvalidBackReferenceIndex, off));
                }
                let t = clone_type(&backref[n as usize]);
                proof {
                    assert(type_v(t) == cache[n as int]);
                }
                let ghost pre_params = params@;
                params.push(t);
                proof {
                    lemma_types_v_push(pre_params, t);
                }
            } else {
                let len_before = self.input.len();
                let param_type = match self.read_var_type(StorageClass::empty()) {
                    Ok(t) => t,
                    Err(e) => {
                        return Err(e);
                    },
                };
                let consumed = len_before - self.input.len();
                if backref.len() <= 9 && consumed > 1 {
                    let ghost pre_backref = backref@;
                    let c = clone_type(&param_type);
                    backref.push(c);
                    proof {
                        lemma_types_v_push(pre_backref, c);
                    }
                }
                proof {
                    assert(types_v(backref@) == sp_cache_step(
                        cache,
                        type_v(param_type),
                        pre_rem.len() - self.rem().len(),
                    ));
                }
                let ghost pre_params = params@;
                params.push(param_type);
                proof {
                    lemma_types_v_push(pre_params, param_type);
                }
            }
        }
        proof {
            lemma_types_v_props(params@);
        }
        if params.len() == 0 {
            Ok(None)
        } else {
            Ok(Some(Params { types: params }))
        }
    }

    /// Decode a qualified name: segments accumulate innermost-first until
    /// the closing `@`.
    #[verifier::rlimit(100)]
    pub fn read_name(&mut self) -> (r: Result<NameSequence<'a>, Error>)
        requires
            old(self).wf(),
        ensures
            final(self).wf(),
            match r {
                Ok(ns) => {
                    let o = sp_name(old(self).rem(), old(self).names());
                    &&& o is Good
                    &&& names_v(ns.names@) == o->v
                    &&& final(self).rem() == o->rem
                    &&& final(self).names() == o->names
                    &&& final(self).rem().len() < old(self).rem().len()
                },
                Err(e) => {
                    let o = sp_name(old(self).rem(), old(self).names());
                    &&& o is Bad
                    &&& e.matches(o.err())
                },
            },
        decreases self.rem().len(), 0int, 5int,
    {
        let ghost orig_rem = self.rem();
        let ghost orig_names = self.names();
        let mut names: Vec<Name<'a>> = Vec::new();
        proof {
            assert(names@ =~= Seq::<Name<'a>>::empty());
        }
        while !self.next_is('@' as u8)
            invariant
                self.wf(),
                orig_rem == old(self).rem(),
                orig_names == old(self).names(),
                self.rem().len() <= orig_rem.len(),
                sp_name_loop(orig_rem, orig_names, Seq::empty()) == sp_name_loop(
                    self.rem(),
                    self.names(),
                    names_v(names@),
                ),
            decreases self.rem().len(),
        {
            let ghost pre_rem = self.rem();
            let ghost pre_names = self.names();
            let orig: &'a [u8] = self.input;
            let ghost pre_list = names@;
            if let Some(i) = self.consume_digit() {
                if (i as usize) >= self.memorized_names.len() {
                    let off = vstd::slice::slice_to_vec(orig);
                    return Err(Error::new(ErrorKind::InvalidBackReferenceIndex, off));
                }
                let nm = self.memorized_names[i as usize];
                proof {
                    assert(nm@ == pre_names[i as int]);
                }
                let seg = Name { name_str: nm, op: None, template_params: None };
                names.push(seg);
                proof {
                    lemma_names_v_push(pre_list, seg);
                }
            } else if self.consume2('?' as u8, '$' as u8) {
                let nm = match self.read_string() {
                    Ok(s) => s,
                    Err(e) => {
                        return Err(e);
                    },
                };
                let params = match self.read_params() {
                    Ok(p) => p,
                    Err(e) => {
                        return Err(e);
                    },
                };
                match self.expect('@' as u8) {
                    Ok(_) => {},
                    Err(e) => {
                        return Err(e);
                    },
                }
                let seg = Name { name_str: nm, op: None, template_params: params };
                names.push(seg);
                proof {
                    lemma_names_v_push(pre_list, seg);
                }
            } else if self.consume('?' as u8) {
                let p = match self.read_operator() {
                    Ok(p) => p,
                    Err(e) => {
                        return Err(e);
                    },
                };
                let template_params = match self.read_params() {
                    Ok(ps) => ps,
                    Err(e) => {
                        return Err(e);
                    },
                };
                let nstr: &'a [u8] = match p.1 {
                    Some(s) => s,
                    None => vstd::slice::slice_subrange(self.input, 0, 0),
                };
                proof {
                    if p.1 is None {
                        assert(nstr@ =~= Seq::<u8>::empty());
                    }
                }
                let seg = Name { name_str: nstr, op: Some(p.0), template_params };
                names.push(seg);
                proof {
                    lemma_names_v_push(pre_list, seg);
                }
            } else {
                let nm = match self.read_string() {
                    Ok(s) => s,
                    Err(e) => {
                        return Err(e);
                    },
                };
                self.memorize_string(nm);
                let seg = Name { name_str: nm, op: None, template_params: None };
                names.push(seg);
                proof {
                    lemma_names_v_push(pre_list, seg);
                }
            }
        }
        let consumed = self.consume('@' as u8);
        proof {
            assert(consumed);
        }
        Ok(NameSequence { names })
    }

    /// Decode the non-member-function branch after `Y`.
    #[verifier::rlimit(100)]
    fn parse_nonmember(&mut self) -> (r: Result<Type<'a>, Error>)
        requires
            old(self).wf(),
        ensures
            final(self).wf(),
            match r {
                Ok(t) => {
                    let o = sp_nonmember(old(self).rem(), old(self).names());
                    &&& o is Good
                    &&& type_v(t) == o->v
                    &&& final(self).rem() == o->rem
                    &&& final(self).names() == o->names
                },
                Err(e) => {
                    let o = sp_nonmember(old(self).rem(), old(self).names());
                    &&& o is Bad
                    &&& e.matches(o.err())
                },
            },
    {
        let _conv = match self.read_calling_conv() {
            Ok(c) => c,
            Err(e) => {
                return Err(e);
            },
        };
        let storage_class = match self.read_storage_class_for_return() {
            Ok(sc) => sc,
            Err(e) => {
                return Err(e);
            },
        };
        let return_type = match self.read_var_type(storage_class) {
            Ok(t) => t,
            Err(e) => {
                return Err(e);
            },
        };
        let params = match self.read_params() {
            Ok(p) => p,
            Err(e) => {
                return Err(e);
            },
        };
        let ps = match params {
            Some(p) => p,
            None => Params::empty(),
        };
        let ghost tps = types_v(ps.types@);
        let t = Type::NonMemberFunction(ps, StorageClass::empty(), Box::new(return_type));
        proof {
            assert(type_v(t) == TypeV::NonMemberFunction(
                tps,
                spec_sc(false, false, false),
                Box::new(type_v(return_type)),
            ));
        }
        Ok(t)
    }

    /// Decode the member-function branch.
    #[verifier::rlimit(100)]
    fn parse_member(&mut self) -> (r: Result<Type<'a>, Error>)
        requires
            old(self).wf(),
        ensures
            final(self).wf(),
            match r {
                Ok(t) => {
                    let o = sp_member(old(self).rem(), old(self).names());
                    &&& o is Good
                    &&& type_v(t) == o->v
                    &&& final(self).rem() == o->rem
                    &&& final(self).names() == o->names
                },
                Err(e) => {
                    let o = sp_member(old(self).rem(), old(self).names());
                    &&& o is Bad
                    &&& e.matches(o.err())
                },
            },
    {
        let _func_class = match self.read_func_class() {
            Ok(fc) => fc,
            Err(e) => {
                return Err(e);
            },
        };
        let _is_64bit_ptr = self.consume('E' as u8);
        let access_class = self.read_func_access_class();
        let _conv = match self.read_calling_conv() {
            Ok(c) => c,
            Err(e) => {
                return Err(e);
            },
        };
        let storage_class_for_return = match self.read_storage_class_for_return() {
            Ok(sc) => sc,
            Err(e) => {
                return Err(e);
            },
        };
        let return_type = match self.read_func_return_type(storage_class_for_return) {
            Ok(t) => t,
            Err(e) => {
                return Err(e);
            },
        };
        let params = match self.read_params() {
            Ok(p) => p,
            Err(e) => {
                return Err(e);
            },
        };
        let ps = match params {
            Some(p) => p,
            None => Params::empty(),
        };
        let ghost tps = types_v(ps.types@);
        let t = Type::MemberFunction(ps, access_class, Box::new(return_type));
        proof {
            assert(type_v(t) == TypeV::MemberFunction(
                tps,
                access_class,
                Box::new(type_v(return_type)),
            ));
        }
        Ok(t)
    }

    /// Decode a whole mangled symbol: the `?` marker, the qualified name,
    /// then a variable, a non-member function, or a member function.
    #[verifier::rlimit(100)]
    pub fn parse(self) -> (r: Result<ParseResult<'a>, Error>)
        requires
            self.wf(),
        ensures
            match r {
                Ok(pr) => {
                    let o = sp_parse(self.rem(), self.names());
                    &&& o is Good
                    &&& names_v(pr.symbol.names@) == o->v.0
                    &&& type_v(pr.symbol_type) == o->v.1
                },
                Err(e) => {
                    let o = sp_parse(self.rem(), self.names());
                    &&& o is Bad
                    &&& e.matches(o.err())
                },
            },
    {
        let ghost rem0 = self.rem();
        let ghost names0 = self.names();
        let mut this = self;
        if !this.consume('?' as u8) {
            let off = this.rest_vec();
            return Err(Error::new(ErrorKind::MissingPrefixMarker, off));
        }
        let symbol = match this.read_name() {
            Ok(ns) => ns,
            Err(e) => {
                return Err(e);
            },
        };
        let ghost r1g = this.rem();
        let ghost n1g = this.names();
        let ghost symv = names_v(symbol.names@);
        proof {
            assert(r1g.len() < rem0.len());
            assert(sp_parse(rem0, names0) == sp_parse_tail(rem0, r1g, n1g, symv));
        }
        let symbol_type = if this.consume('3' as u8) {
            match this.read_var_type(StorageClass::empty()) {
                Ok(t) => t,
                Err(e) => {
                    return Err(e);
                },
            }
        } else if this.consume('Y' as u8) {
            match this.parse_nonmember() {
                Ok(t) => t,
                Err(e) => {
                    return Err(e);
                },
            }
        } else {
            match this.parse_member() {
                Ok(t) => t,
                Err(e) => {
                    return Err(e);
                },
            }
        };
        Ok(ParseResult { symbol, symbol_type })
    }
}

/// One nibble step of the wrapping 32-bit accumulator.
proof fn lemma_wrap_step(acc: int, nib: int)
    requires
        0 <= acc < 0x1_0000_0000,
        0 <= nib < 16,
    ensures
        (acc % 0x1000_0000) * 16 + nib == (acc * 16 + nib) % 0x1_0000_0000,
{
    let q = acc / 0x1000_0000;
    let r = acc % 0x1000_0000;
    vstd::arithmetic::div_mod::lemma_fundamental_div_mod(acc, 0x1000_0000);
    assert(acc == 0x1000_0000 * q + r);
    assert(0 <= r < 0x1000_0000) by {
        vstd::arithmetic::div_mod::lemma_mod_bound(acc, 0x1000_0000);
    }
    assert(acc * 16 + nib == 0x1_0000_0000 * q + (r * 16 + nib)) by (nonlinear_arith)
        requires
            acc == 0x1000_0000 * q + r,
            0 <= nib,
    ;
    assert((0x1_0000_0000 * q + (r * 16 + nib)) % 0x1_0000_0000 == (r * 16 + nib)
        % 0x1_0000_0000) by {
        vstd::arithmetic::div_mod::lemma_mod_multiples_vanish(q, r * 16 + nib, 0x1_0000_0000);
    }
    assert((r * 16 + nib) % 0x1_0000_0000 == r * 16 + nib) by {
        vstd::arithmetic::div_mod::lemma_small_mod((r * 16 + nib) as nat, 0x1_0000_0000nat);
    }
}

/// A function class from access, static/virtual and far flags.
fn fc_acc(
    is_public: bool,
    is_protected: bool,
    is_private: bool,
    is_static: bool,
    is_virtual: bool,
    is_far: bool,
) -> (r: FuncClass)
    ensures
        r == spec_fc_acc(is_public, is_protected, is_private, is_static, is_virtual, is_far),
{
    FuncClass::flags(is_public, is_protected, is_private, false, is_static, is_virtual, is_far)
}

/// A global function class.
fn fc_global(is_far: bool) -> (r: FuncClass)
    ensures
        r == spec_fc_global(is_far),
{
    FuncClass::flags(false, false, false, true, false, false, is_far)
}

/// The operator table and the byte-code tables, executable side:
/// each returns exactly what its model table says.

fn op1_x(b: u8) -> (r: Option<Op>)
    ensures
        r == op1_of(b),
{
    if b == ('0' as u8) {
        Some(Op::Ctor)
    } else if b == ('1' as u8) {
        Some(Op::Dtor)
    } else if b == ('2' as u8) {
        Some(Op::New)
    } else if b == ('3' as u8) {
        Some(Op::Delete)
    } else if b == ('4' as u8) {
        Some(Op::Assign)
    } else if b == ('5' as u8) {
        Some(Op::Shr)
    } else if b == ('6' as u8) {
        Some(Op::Shl)
    } else if b == ('7' as u8) {
        Some(Op::Not)
    } else if b == ('8' as u8) {
        Some(Op::Equal)
    } else if b == ('9' as u8) {
        Some(Op::NotEqual)
    } else if b == ('A' as u8) {
        Some(Op::Subscript)
    } else if b == ('C' as u8) {
        Some(Op::Arrow)
    } else if b == ('D' as u8) {
        Some(Op::Deref)
    } else if b == ('E' as u8) {
        Some(Op::Increment)
    } else if b == ('F' as u8) {
        Some(Op::Decrement)
    } else if b == ('G' as u8) {
        Some(Op::Subtract)
    } else if b == ('H' as u8) {
        Some(Op::Add)
    } else if b == ('I' as u8) {
        Some(Op::AddressOf)
    } else if b == ('J' as u8) {
        Some(Op::ArrowStar)
    } else if b == ('K' as u8) {
        Some(Op::Divide)
    } else if b == ('L' as u8) {
        Some(Op::Modulus)
    } else if b == ('M' as u8) {
        Some(Op::Less)
    } else if b == ('N' as u8) {
        Some(Op::LessEqual)
    } else if b == ('O' as u8) {
        Some(Op::Greater)
    } else if b == ('P' as u8) {
        Some(Op::GreaterEqual)
    } else if b == ('Q' as u8) {
        Some(Op::Comma)
    } else if b == ('R' as u8) {
        Some(Op::Call)
    } else if b == ('S' as u8) {
        Some(Op::BitNot)
    } else if b == ('T' as u8) {
        Some(Op::BitXor)
    } else if b == ('U' as u8) {
        Some(Op::BitOr)
    } else if b == ('V' as u8) {
        Some(Op::LogicalAnd)
    } else if b == ('W' as u8) {
        Some(Op::LogicalOr)
    } else if b == ('X' as u8) {
        Some(Op::MulAssign)
    } else if b == ('Y' as u8) {
        Some(Op::AddAssign)
    } else if b == ('Z' as u8) {
        Some(Op::SubAssign)
    } else {
        None
    }
}

fn op2_x(b: u8) -> (r: Option<Op>)
    ensures
        r == op2_of(b),
{
    if b == ('0' as u8) {
        Some(Op::DivAssign)
    } else if b == ('1' as u8) {
        Some(Op::ModAssign)
    } else if b == ('2' as u8) {
        Some(Op::ShrAssign)
    } else if b == ('3' as u8) {
        Some(Op::ShlAssign)
    } else if b == ('4' as u8) {
        Some(Op::AndAssign)
    } else if b == ('5' as u8) {
        Some(Op::OrAssign)
    } else if b == ('6' as u8) {
        Some(Op::XorAssign)
    } else if b == ('U' as u8) {
        Some(Op::NewArray)
    } else if b == ('V' as u8) {
        Some(Op::DeleteArray)
    } else {
        None
    }
}

fn sc_x(b: u8) -> (r: Option<StorageClass>)
    ensures
        r == sc_of(b),
{
    if b == ('A' as u8) {
        Some(StorageClass::flags(false, false, false))
    } else if b == ('B' as u8) {
        Some(StorageClass::flags(true, false, false))
    } else if b == ('C' as u8) {
        Some(StorageClass::flags(false, true, false))
    } else if b == ('D' as u8) {
        Some(StorageClass::flags(true, true, false))
    } else if b == ('E' as u8) {
        Some(StorageClass::flags(false, false, true))
    } else if b == ('F' as u8) {
        Some(StorageClass::flags(true, false, true))
    } else if b == ('G' as u8) {
        Some(StorageClass::flags(false, true, true))
    } else if b == ('H' as u8) {
        Some(StorageClass::flags(true, true, true))
    } else {
        None
    }
}

fn acc_x(b: u8) -> (r: Option<StorageClass>)
    ensures
        r == acc_of(b),
{
    if b == ('A' as u8) {
        Some(StorageClass::flags(false, false, false))
    } else if b == ('B' as u8) {
        Some(StorageClass::flags(true, false, false))
    } else if b == ('C' as u8) {
        Some(StorageClass::flags(false, true, false))
    } else if b == ('D' as u8) {
        Some(StorageClass::flags(true, true, false))
    } else {
        None
    }
}

fn conv_x(b: u8) -> (r: Option<CallingConv>)
    ensures
        r == conv_of(b),
{
    if b == ('A' as u8) {
        Some(CallingConv::Cdecl)
    } else if b == ('B' as u8) {
        Some(CallingConv::Cdecl)
    } else if b == ('C' as u8) {
        Some(CallingConv::Pascal)
    } else if b == ('E' as u8) {
        Some(CallingConv::Thiscall)
    } else if b == ('G' as u8) {
        Some(CallingConv::Stdcall)
    } else if b == ('I' as u8) {
        Some(CallingConv::Fastcall)
    } else {
        None
    }
}

fn fc_x(b: u8) -> (r: Option<FuncClass>)
    ensures
        r == fc_of(b),
{
    if b == ('A' as u8) {
        Some(fc_acc(false, false, true, false, false, false))
    } else if b == ('B' as u8) {
        Some(fc_acc(false, false, true, false, false, true))
    } else if b == ('C' as u8) {
        Some(fc_acc(false, false, true, true, false, false))
    } else if b == ('D' as u8) {
        Some(fc_acc(false, false, true, true, false, false))
    } else if b == ('E' as u8) {
        Some(fc_acc(false, false, true, false, true, false))
    } else if b == ('F' as u8) {
        Some(fc_acc(false, false, true, false, true, false))
    } else if b == ('I' as u8) {
        Some(fc_acc(false, true, false, false, false, false))
    } else if b == ('J' as u8) {
        Some(fc_acc(false, true, false, false, false, true))
    } else if b == ('K' as u8) {
        Some(fc_acc(false, true, false, true, false, false))
    } else if b == ('L' as u8) {
        Some(fc_acc(false, true, false, true, false, true))
    } else if b == ('M' as u8) {
        Some(fc_acc(false, true, false, false, true, false))
    } else if b == ('N' as u8) {
        Some(fc_acc(false, true, false, false, true, true))
    } else if b == ('Q' as u8) {
        Some(fc_acc(true, false, false, false, false, false))
    } else if b == ('R' as u8) {
        Some(fc_acc(true, false, false, false, false, true))
    } else if b == ('S' as u8) {
        Some(fc_acc(true, false, false, true, false, false))
    } else if b == ('T' as u8) {
        Some(fc_acc(true, false, false, true, false, true))
    } else if b == ('U' as u8) {
        Some(fc_acc(true, false, false, false, true, false))
    } else if b == ('V' as u8) {
        Some(fc_acc(true, false, false, false, true, true))
    } else if b == ('Y' as u8) {
        Some(fc_global(false))
    } else if b == ('Z' as u8) {
        Some(fc_global(true))
    } else {
        None
    }
}


/// A deep copy of a decoded type; the ghost image is unchanged.
pub fn clone_type<'a>(t: &Type<'a>) -> (r: Type<'a>)
    ensures
        type_v(r) == type_v(*t),
    decreases t,
{
    match t {
        Type::NoReturn => Type::NoReturn,
        Type::MemberFunction(p, sc, ret) => Type::MemberFunction(
            clone_params(p),
            *sc,
            Box::new(clone_type(&**ret)),
        ),
        Type::NonMemberFunction(p, sc, ret) => Type::NonMemberFunction(
            clone_params(p),
            *sc,
            Box::new(clone_type(&**ret)),
        ),
        Type::Ptr(inner, sc) => Type::Ptr(Box::new(clone_type(&**inner)), *sc),
        Type::Ref(inner, sc) => Type::Ref(Box::new(clone_type(&**inner)), *sc),
        Type::Array(len, inner, sc) => Type::Array(*len, Box::new(clone_type(&**inner)), *sc),
        Type::Struct(ns, sc) => Type::Struct(clone_names(ns), *sc),
        Type::Union(ns, sc) => Type::Union(clone_names(ns), *sc),
        Type::Class(ns, sc) => Type::Class(clone_names(ns), *sc),
        Type::Enum(ns, sc) => Type::Enum(clone_names(ns), *sc),
        Type::Void(sc) => Type::Void(*sc),
        Type::Bool(sc) => Type::Bool(*sc),
        Type::Char(sc) => Type::Char(*sc),
        Type::Schar(sc) => Type::Schar(*sc),
        Type::Uchar(sc) => Type::Uchar(*sc),
        Type::Short(sc) => Type::Short(*sc),
        Type::Ushort(sc) => Type::Ushort(*sc),
        Type::Int(sc) => Type::Int(*sc),
        Type::Uint(sc) => Type::Uint(*sc),
        Type::Long(sc) => Type::Long(*sc),
        Type::Ulong(sc) => Type::Ulong(*sc),
        Type::Int64(sc) => Type::Int64(*sc),
        Type::Uint64(sc) => Type::Uint64(*sc),
        Type::Wchar(sc) => Type::Wchar(*sc),
        Type::Float(sc) => Type::Float(*sc),
        Type::Double(sc) => Type::Double(*sc),
        Type::Ldouble(sc) => Type::Ldouble(*sc),
    }
}

/// A deep copy of a type list; the ghost image is unchanged.
pub fn clone_params<'a>(p: &Params<'a>) -> (r: Params<'a>)
    ensures
        params_v(r) == params_v(*p),
    decreases p,
{
    let mut types: Vec<Type<'a>> = Vec::new();
    let n = p.types.len();
    let mut i: usize = 0;
    proof {
        assert(types@ =~= Seq::<Type<'a>>::empty());
        assert(p.types@.take(0int) =~= Seq::<Type<'a>>::empty());
    }
    while i < n
        invariant
            i <= n,
            n == p.types@.len(),
            types_v(types@) == types_v(p.types@.take(i as int)),
        decreases n - i,
    {
        let ghost pre = types@;
        let c = clone_type(&p.types[i]);
        types.push(c);
        proof {
            lemma_types_v_push(pre, c);
            lemma_types_v_push(p.types@.take(i as int), p.types@[i as int]);
            assert(p.types@.take(i as int).push(p.types@[i as int]) =~= p.types@.take(
                i as int + 1,
            ));
        }
        i = i + 1;
    }
    proof {
        assert(p.types@.take(n as int) =~= p.types@);
    }
    Params { types }
}

/// A deep copy of a name chain; the ghost image is unchanged.
pub fn clone_names<'a>(ns: &NameSequence<'a>) -> (r: NameSequence<'a>)
    ensures
        names_v(r.names@) == names_v(ns.names@),
    decreases ns,
{
    let mut names: Vec<Name<'a>> = Vec::new();
    let n = ns.names.len();
    let mut i: usize = 0;
    proof {
        assert(names@ =~= Seq::<Name<'a>>::empty());
        assert(ns.names@.take(0int) =~= Seq::<Name<'a>>::empty());
    }
    while i < n
        invariant
            i <= n,
            n == ns.names@.len(),
            names_v(names@) == names_v(ns.names@.take(i as int)),
        decreases n - i,
    {
        let ghost pre = names@;
        let c = clone_name(&ns.names[i]);
        names.push(c);
        proof {
            lemma_names_v_push(pre, c);
            lemma_names_v_push(ns.names@.take(i as int), ns.names@[i as int]);
            assert(ns.names@.take(i as int).push(ns.names@[i as int]) =~= ns.names@.take(
                i as int + 1,
            ));
        }
        i = i + 1;
    }
    proof {
        assert(ns.names@.take(n as int) =~= ns.names@);
    }
    NameSequence { names }
}

/// A deep copy of one name segment; the ghost image is unchanged.
pub fn clone_name<'a>(n: &Name<'a>) -> (r: Name<'a>)
    ensures
        name_v(r) == name_v(*n),
    decreases n,
{
    let template_params = match &n.template_params {
        Some(p) => Some(clone_params(p)),
        None => None,
    };
    Name { name_str: n.name_str, op: n.op, template_params }
}

/// The single-byte primitive type table, executable side.
fn prim_x<'a>(b: u8, sc: StorageClass) -> (r: Option<Type<'a>>)
    ensures
        match r {
            Some(t) => prim_of(b, sc) is Some && type_v(t) == prim_of(b, sc)->0,
            None => prim_of(b, sc) is None,
        },
{
    if b == ('X' as u8) {
        Some(Type::Void(sc))
    } else if b == ('D' as u8) {
        Some(Type::Char(sc))
    } else if b == ('C' as u8) {
        Some(Type::Schar(sc))
    } else if b == ('E' as u8) {
        Some(Type::Uchar(sc))
    } else if b == ('F' as u8) {
        Some(Type::Short(sc))
    } else if b == ('G' as u8) {
        Some(Type::Ushort(sc))
    } else if b == ('H' as u8) {
        Some(Type::Int(sc))
    } else if b == ('I' as u8) {
        Some(Type::Uint(sc))
    } else if b == ('J' as u8) {
        Some(Type::Long(sc))
    } else if b == ('K' as u8) {
        Some(Type::Ulong(sc))
    } else if b == ('M' as u8) {
        Some(Type::Float(sc))
    } else if b == ('N' as u8) {
        Some(Type::Double(sc))
    } else if b == ('O' as u8) {
        Some(Type::Ldouble(sc))
    } else {
        None
    }
}

/// The `_`-prefixed extended primitive type table, executable side.
fn ext_x<'a>(b: u8, sc: StorageClass) -> (r: Option<Type<'a>>)
    ensures
        match r {
            Some(t) => ext_of(b, sc) is Some && type_v(t) == ext_of(b, sc)->0,
            None => ext_of(b, sc) is None,
        },
{
    if b == ('N' as u8) {
        Some(Type::Bool(sc))
    } else if b == ('J' as u8) {
        Some(Type::Int64(sc))
    } else if b == ('K' as u8) {
        Some(Type::Uint64(sc))
    } else if b == ('W' as u8) {
        Some(Type::Wchar(sc))
    } else {
        None
    }
}

/// Whether two byte slices hold the same bytes.
pub fn bytes_eq(a: &[u8], b: &[u8]) -> (r: bool)
    ensures
        r == (a@ == b@),
{
    if a.len() != b.len() {
        proof {
            assert(a@ != b@);
        }
        return false;
    }
    let n = a.len();
    let mut i: usize = 0;
    while i < n
        invariant
            n == a@.len() == b@.len(),
            i <= n,
            forall|j: int| 0 <= j < i ==> a@[j] == b@[j],
        decreases n - i,
    {
        if a[i] != b[i] {
            return false;
        }
        i = i + 1;
    }
    proof {
        assert(a@ =~= b@);
    }
    true
}

} // verus!
