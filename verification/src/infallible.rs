//! Conversions that cannot fail: every value of the source type is a value of
//! the destination type, so the error type has no values.

use vstd::prelude::*;
use crate::convert::TryFrom;
use crate::error::Void;

verus! {

impl TryFrom<u8> for u8 {
    type Err = Void;

    open spec fn outcome(n: u8) -> Result<u8, Void> {
        Ok(n as u8)
    }

    fn try_from(n: u8) -> (r: Result<u8, Void>) {
        Ok(n as u8)
    }
}

impl TryFrom<u8> for u16 {
    type Err = Void;

    open spec fn outcome(n: u8) -> Result<u16, Void> {
        Ok(n as u16)
    }

    fn try_from(n: u8) -> (r: Result<u16, Void>) {
        Ok(n as u16)
    }
}

impl TryFrom<u16> for u16 {
    type Err = Void;

    open spec fn outcome(n: u16) -> Result<u16, Void> {
        Ok(n as u16)
    }

    fn try_from(n: u16) -> (r: Result<u16, Void>) {
        Ok(n as u16)
    }
}

impl TryFrom<u8> for u32 {
    type Err = Void;

    open spec fn outcome(n: u8) -> Result<u32, Void> {
        Ok(n as u32)
    }

    fn try_from(n: u8) -> (r: Result<u32, Void>) {
        Ok(n as u32)
    }
}

impl TryFrom<u16> for u32 {
    type Err = Void;

    open spec fn outcome(n: u16) -> Result<u32, Void> {
        Ok(n as u32)
    }

    fn try_from(n: u16) -> (r: Result<u32, Void>) {
        Ok(n as u32)
    }
}

impl TryFrom<u32> for u32 {
    type Err = Void;

    open spec fn outcome(n: u32) -> Result<u32, Void> {
        Ok(n as u32)
    }

    fn try_from(n: u32) -> (r: Result<u32, Void>) {
        Ok(n as u32)
    }
}

impl TryFrom<u8> for u64 {
    type Err = Void;

    open spec fn outcome(n: u8) -> Result<u64, Void> {
        Ok(n as u64)
    }

    fn try_from(n: u8) -> (r: Result<u64, Void>) {
        Ok(n as u64)
    }
}

impl TryFrom<u16> for u64 {
    type Err = Void;

    open spec fn outcome(n: u16) -> Result<u64, Void> {
        Ok(n as u64)
    }

    fn try_from(n: u16) -> (r: Result<u64, Void>) {
        Ok(n as u64)
    }
}

impl TryFrom<u32> for u64 {
    type Err = Void;

    open spec fn outcome(n: u32) -> Result<u64, Void> {
        Ok(n as u64)
    }

    fn try_from(n: u32) -> (r: Result<u64, Void>) {
        Ok(n as u64)
    }
}

impl TryFrom<u64> for u64 {
    type Err = Void;

    open spec fn outcome(n: u64) -> Result<u64, Void> {
        Ok(n as u64)
    }

    fn try_from(n: u64) -> (r: Result<u64, Void>) {
        Ok(n as u64)
    }
}

impl TryFrom<usize> for u64 {
    type Err = Void;

    open spec fn outcome(n: usize) -> Result<u64, Void> {
        Ok(n as u64)
    }

    fn try_from(n: usize) -> (r: Result<u64, Void>) {
        Ok(n as u64)
    }
}

impl TryFrom<u8> for usize {
    type Err = Void;

    open spec fn outcome(n: u8) -> Result<usize, Void> {
        Ok(n as usize)
    }

    fn try_from(n: u8) -> (r: Result<usize, Void>) {
        Ok(n as usize)
    }
}

impl TryFrom<u16> for usize {
    type Err = Void;

    open spec fn outcome(n: u16) -> Result<usize, Void> {
        Ok(n as usize)
    }

    fn try_from(n: u16) -> (r: Result<usize, Void>) {
        Ok(n as usize)
    }
}

impl TryFrom<u32> for usize {
    type Err = Void;

    open spec fn outcome(n: u32) -> Result<usize, Void> {
        Ok(n as usize)
    }

    fn try_from(n: u32) -> (r: Result<usize, Void>) {
        Ok(n as usize)
    }
}

impl TryFrom<usize> for usize {
    type Err = Void;

    open spec fn outcome(n: usize) -> Result<usize, Void> {
        Ok(n as usize)
    }

    fn try_from(n: usize) -> (r: Result<usize, Void>) {
        Ok(n as usize)
    }
}

impl TryFrom<i8> for i8 {
    type Err = Void;

    open spec fn outcome(n: i8) -> Result<i8, Void> {
        Ok(n as i8)
    }

    fn try_from(n: i8) -> (r: Result<i8, Void>) {
        Ok(n as i8)
    }
}

impl TryFrom<u8> for i16 {
    type Err = Void;

    open spec fn outcome(n: u8) -> Result<i16, Void> {
        Ok(n as i16)
    }

    fn try_from(n: u8) -> (r: Result<i16, Void>) {
        Ok(n as i16)
    }
}

impl TryFrom<i8> for i16 {
    type Err = Void;

    open spec fn outcome(n: i8) -> Result<i16, Void> {
        Ok(n as i16)
    }

    fn try_from(n: i8) -> (r: Result<i16, Void>) {
        Ok(n as i16)
    }
}

impl TryFrom<i16> for i16 {
    type Err = Void;

    open spec fn outcome(n: i16) -> Result<i16, Void> {
        Ok(n as i16)
    }

    fn try_from(n: i16) -> (r: Result<i16, Void>) {
        Ok(n as i16)
    }
}

impl TryFrom<u8> for i32 {
    type Err = Void;

    open spec fn outcome(n: u8) -> Result<i32, Void> {
        Ok(n as i32)
    }

    fn try_from(n: u8) -> (r: Result<i32, Void>) {
        Ok(n as i32)
    }
}

impl TryFrom<u16> for i32 {
    type Err = Void;

    open spec fn outcome(n: u16) -> Result<i32, Void> {
        Ok(n as i32)
    }

    fn try_from(n: u16) -> (r: Result<i32, Void>) {
        Ok(n as i32)
    }
}

impl TryFrom<i8> for i32 {
    type Err = Void;

    open spec fn outcome(n: i8) -> Result<i32, Void> {
        Ok(n as i32)
    }

    fn try_from(n: i8) -> (r: Result<i32, Void>) {
        Ok(n as i32)
    }
}

impl TryFrom<i16> for i32 {
    type Err = Void;

    open spec fn outcome(n: i16) -> Result<i32, Void> {
        Ok(n as i32)
    }

    fn try_from(n: i16) -> (r: Result<i32, Void>) {
        Ok(n as i32)
    }
}

impl TryFrom<i32> for i32 {
    type Err = Void;

    open spec fn outcome(n: i32) -> Result<i32, Void> {
        Ok(n as i32)
    }

    fn try_from(n: i32) -> (r: Result<i32, Void>) {
        Ok(n as i32)
    }
}

impl TryFrom<u8> for i64 {
    type Err = Void;

    open spec fn outcome(n: u8) -> Result<i64, Void> {
        Ok(n as i64)
    }

    fn try_from(n: u8) -> (r: Result<i64, Void>) {
        Ok(n as i64)
    }
}

impl TryFrom<u16> for i64 {
    type Err = Void;

    open spec fn outcome(n: u16) -> Result<i64, Void> {
        Ok(n as i64)
    }

    fn try_from(n: u16) -> (r: Result<i64, Void>) {
        Ok(n as i64)
    }
}

impl TryFrom<u32> for i64 {
    type Err = Void;

    open spec fn outcome(n: u32) -> Result<i64, Void> {
        Ok(n as i64)
    }

    fn try_from(n: u32) -> (r: Result<i64, Void>) {
        Ok(n as i64)
    }
}

impl TryFrom<i8> for i64 {
    type Err = Void;

    open spec fn outcome(n: i8) -> Result<i64, Void> {
        Ok(n as i64)
    }

    fn try_from(n: i8) -> (r: Result<i64, Void>) {
        Ok(n as i64)
    }
}

impl TryFrom<i16> for i64 {
    type Err = Void;

    open spec fn outcome(n: i16) -> Result<i64, Void> {
        Ok(n as i64)
    }

    fn try_from(n: i16) -> (r: Result<i64, Void>) {
        Ok(n as i64)
    }
}

impl TryFrom<i32> for i64 {
    type Err = Void;

    open spec fn outcome(n: i32) -> Result<i64, Void> {
        Ok(n as i64)
    }

    fn try_from(n: i32) -> (r: Result<i64, Void>) {
        Ok(n as i64)
    }
}

impl TryFrom<i64> for i64 {
    type Err = Void;

    open spec fn outcome(n: i64) -> Result<i64, Void> {
        Ok(n as i64)
    }

    fn try_from(n: i64) -> (r: Result<i64, Void>) {
        Ok(n as i64)
    }
}

impl TryFrom<isize> for i64 {
    type Err = Void;

    open spec fn outcome(n: isize) -> Result<i64, Void> {
        Ok(n as i64)
    }

    fn try_from(n: isize) -> (r: Result<i64, Void>) {
        Ok(n as i64)
    }
}

impl TryFrom<u8> for isize {
    type Err = Void;

    open spec fn outcome(n: u8) -> Result<isize, Void> {
        Ok(n as isize)
    }

    fn try_from(n: u8) -> (r: Result<isize, Void>) {
        Ok(n as isize)
    }
}

impl TryFrom<u16> for isize {
    type Err = Void;

    open spec fn outcome(n: u16) -> Result<isize, Void> {
        Ok(n as isize)
    }

    fn try_from(n: u16) -> (r: Result<isize, Void>) {
        Ok(n as isize)
    }
}

impl TryFrom<i8> for isize {
    type Err = Void;

    open spec fn outcome(n: i8) -> Result<isize, Void> {
        Ok(n as isize)
    }

    fn try_from(n: i8) -> (r: Result<isize, Void>) {
        Ok(n as isize)
    }
}

impl TryFrom<i16> for isize {
    type Err = Void;

    open spec fn outcome(n: i16) -> Result<isize, Void> {
        Ok(n as isize)
    }

    fn try_from(n: i16) -> (r: Result<isize, Void>) {
        Ok(n as isize)
    }
}

impl TryFrom<i32> for isize {
    type Err = Void;

    open spec fn outcome(n: i32) -> Result<isize, Void> {
        Ok(n as isize)
    }

    fn try_from(n: i32) -> (r: Result<isize, Void>) {
        Ok(n as isize)
    }
}

impl TryFrom<isize> for isize {
    type Err = Void;

    open spec fn outcome(n: isize) -> Result<isize, Void> {
        Ok(n as isize)
    }

    fn try_from(n: isize) -> (r: Result<isize, Void>) {
        Ok(n as isize)
    }
}

/// Each conversion into `u8` that cannot fail succeeds with the value it
/// was given.
pub proof fn lemma_u8_keeps_value(v_u8: u8)
    ensures
        <u8 as TryFrom<u8>>::outcome(v_u8) is Ok,
        <u8 as TryFrom<u8>>::outcome(v_u8)->Ok_0 == v_u8,
{
}

/// Each conversion into `u16` that cannot fail succeeds with the value it
/// was given.
pub proof fn lemma_u16_keeps_value(v_u8: u8, v_u16: u16)
    ensures
        <u16 as TryFrom<u8>>::outcome(v_u8) is Ok,
        <u16 as TryFrom<u8>>::outcome(v_u8)->Ok_0 == v_u8,
        <u16 as TryFrom<u16>>::outcome(v_u16) is Ok,
        <u16 as TryFrom<u16>>::outcome(v_u16)->Ok_0 == v_u16,
{
}

/// Each conversion into `u32` that cannot fail succeeds with the value it
/// was given.
pub proof fn lemma_u32_keeps_value(v_u8: u8, v_u16: u16, v_u32: u32)
    ensures
        <u32 as TryFrom<u8>>::outcome(v_u8) is Ok,
        <u32 as TryFrom<u8>>::outcome(v_u8)->Ok_0 == v_u8,
        <u32 as TryFrom<u16>>::outcome(v_u16) is Ok,
        <u32 as TryFrom<u16>>::outcome(v_u16)->Ok_0 == v_u16,
        <u32 as TryFrom<u32>>::outcome(v_u32) is Ok,
        <u32 as TryFrom<u32>>::outcome(v_u32)->Ok_0 == v_u32,
{
}

/// Each conversion into `u64` that cannot fail succeeds with the value it
/// was given.
pub proof fn lemma_u64_keeps_value(v_u8: u8, v_u16: u16, v_u32: u32, v_u64: u64, v_usize: usize)
    ensures
        <u64 as TryFrom<u8>>::outcome(v_u8) is Ok,
        <u64 as TryFrom<u8>>::outcome(v_u8)->Ok_0 == v_u8,
        <u64 as TryFrom<u16>>::outcome(v_u16) is Ok,
        <u64 as TryFrom<u16>>::outcome(v_u16)->Ok_0 == v_u16,
        <u64 as TryFrom<u32>>::outcome(v_u32) is Ok,
        <u64 as TryFrom<u32>>::outcome(v_u32)->Ok_0 == v_u32,
        <u64 as TryFrom<u64>>::outcome(v_u64) is Ok,
        <u64 as TryFrom<u64>>::outcome(v_u64)->Ok_0 == v_u64,
        <u64 as TryFrom<usize>>::outcome(v_usize) is Ok,
        <u64 as TryFrom<usize>>::outcome(v_usize)->Ok_0 == v_usize,
{
}

/// Each conversion into `usize` that cannot fail succeeds with the value it
/// was given.
pub proof fn lemma_usize_keeps_value(v_u8: u8, v_u16: u16, v_u32: u32, v_usize: usize)
    ensures
        <usize as TryFrom<u8>>::outcome(v_u8) is Ok,
        <usize as TryFrom<u8>>::outcome(v_u8)->Ok_0 == v_u8,
        <usize as TryFrom<u16>>::outcome(v_u16) is Ok,
        <usize as TryFrom<u16>>::outcome(v_u16)->Ok_0 == v_u16,
        <usize as TryFrom<u32>>::outcome(v_u32) is Ok,
        <usize as TryFrom<u32>>::outcome(v_u32)->Ok_0 == v_u32,
        <usize as TryFrom<usize>>::outcome(v_usize) is Ok,
        <usize as TryFrom<usize>>::outcome(v_usize)->Ok_0 == v_usize,
{
}

/// Each conversion into `i8` that cannot fail succeeds with the value it
/// was given.
pub proof fn lemma_i8_keeps_value(v_i8: i8)
    ensures
        <i8 as TryFrom<i8>>::outcome(v_i8) is Ok,
        <i8 as TryFrom<i8>>::outcome(v_i8)->Ok_0 == v_i8,
{
}

/// Each conversion into `i16` that cannot fail succeeds with the value it
/// was given.
pub proof fn lemma_i16_keeps_value(v_u8: u8, v_i8: i8, v_i16: i16)
    ensures
        <i16 as TryFrom<u8>>::outcome(v_u8) is Ok,
        <i16 as TryFrom<u8>>::outcome(v_u8)->Ok_0 == v_u8,
        <i16 as TryFrom<i8>>::outcome(v_i8) is Ok,
        <i16 as TryFrom<i8>>::outcome(v_i8)->Ok_0 == v_i8,
        <i16 as TryFrom<i16>>::outcome(v_i16) is Ok,
        <i16 as TryFrom<i16>>::outcome(v_i16)->Ok_0 == v_i16,
{
}

/// Each conversion into `i32` that cannot fail succeeds with the value it
/// was given.
pub proof fn lemma_i32_keeps_value(v_u8: u8, v_u16: u16, v_i8: i8, v_i16: i16, v_i32: i32)
    ensures
        <i32 as TryFrom<u8>>::outcome(v_u8) is Ok,
        <i32 as TryFrom<u8>>::outcome(v_u8)->Ok_0 == v_u8,
        <i32 as TryFrom<u16>>::outcome(v_u16) is Ok,
        <i32 as TryFrom<u16>>::outcome(v_u16)->Ok_0 == v_u16,
        <i32 as TryFrom<i8>>::outcome(v_i8) is Ok,
        <i32 as TryFrom<i8>>::outcome(v_i8)->Ok_0 == v_i8,
        <i32 as TryFrom<i16>>::outcome(v_i16) is Ok,
        <i32 as TryFrom<i16>>::outcome(v_i16)->Ok_0 == v_i16,
        <i32 as TryFrom<i32>>::outcome(v_i32) is Ok,
        <i32 as TryFrom<i32>>::outcome(v_i32)->Ok_0 == v_i32,
{
}

/// Each conversion into `i64` that cannot fail succeeds with the value it
/// was given.
pub proof fn lemma_i64_keeps_value(
    v_u8: u8,
    v_u16: u16,
    v_u32: u32,
    v_i8: i8,
    v_i16: i16,
    v_i32: i32,
    v_i64: i64,
    v_isize: isize,
)
    ensures
        <i64 as TryFrom<u8>>::outcome(v_u8) is Ok,
        <i64 as TryFrom<u8>>::outcome(v_u8)->Ok_0 == v_u8,
        <i64 as TryFrom<u16>>::outcome(v_u16) is Ok,
        <i64 as TryFrom<u16>>::outcome(v_u16)->Ok_0 == v_u16,
        <i64 as TryFrom<u32>>::outcome(v_u32) is Ok,
        <i64 as TryFrom<u32>>::outcome(v_u32)->Ok_0 == v_u32,
        <i64 as TryFrom<i8>>::outcome(v_i8) is Ok,
        <i64 as TryFrom<i8>>::outcome(v_i8)->Ok_0 == v_i8,
        <i64 as TryFrom<i16>>::outcome(v_i16) is Ok,
        <i64 as TryFrom<i16>>::outcome(v_i16)->Ok_0 == v_i16,
        <i64 as TryFrom<i32>>::outcome(v_i32) is Ok,
        <i64 as TryFrom<i32>>::outcome(v_i32)->Ok_0 == v_i32,
        <i64 as TryFrom<i64>>::outcome(v_i64) is Ok,
        <i64 as TryFrom<i64>>::outcome(v_i64)->Ok_0 == v_i64,
        <i64 as TryFrom<isize>>::outcome(v_isize) is Ok,
        <i64 as TryFrom<isize>>::outcome(v_isize)->Ok_0 == v_isize,
{
}

/// Each conversion into `isize` that cannot fail succeeds with the value it
/// was given.
pub proof fn lemma_isize_keeps_value(
    v_u8: u8,
    v_u16: u16,
    v_i8: i8,
    v_i16: i16,
    v_i32: i32,
    v_isize: isize,
)
    ensures
        <isize as TryFrom<u8>>::outcome(v_u8) is Ok,
        <isize as TryFrom<u8>>::outcome(v_u8)->Ok_0 == v_u8,
        <isize as TryFrom<u16>>::outcome(v_u16) is Ok,
        <isize as TryFrom<u16>>::outcome(v_u16)->Ok_0 == v_u16,
        <isize as TryFrom<i8>>::outcome(v_i8) is Ok,
        <isize as TryFrom<i8>>::outcome(v_i8)->Ok_0 == v_i8,
        <isize as TryFrom<i16>>::outcome(v_i16) is Ok,
        <isize as TryFrom<i16>>::outcome(v_i16)->Ok_0 == v_i16,
        <isize as TryFrom<i32>>::outcome(v_i32) is Ok,
        <isize as TryFrom<i32>>::outcome(v_i32)->Ok_0 == v_i32,
        <isize as TryFrom<isize>>::outcome(v_isize) is Ok,
        <isize as TryFrom<isize>>::outcome(v_isize)->Ok_0 == v_isize,
{
}

} // verus!
