//! Texts in their UTF-8 encoding.
use crate::bytes::{byte_strings, copy_bytes};
use std::string::FromUtf8Error;
use vstd::prelude::*;
use vstd::utf8::{decode_utf8, valid_utf8};

verus! {

/// `std::string::FromUtf8Error`, handed on to the caller.
#[verifier::external_type_specification]
#[verifier::external_body]
pub struct ExFromUtf8Error(std::string::FromUtf8Error);

/// `String::from_utf8` takes exactly the byte strings that are valid UTF-8, and gives the text that
/// they encode.
pub assume_specification[ String::from_utf8 ](vec: Vec<u8>) -> (text: Result<String, FromUtf8Error>)
    ensures
        match text {
            Ok(text) => valid_utf8(vec@) && text@ == decode_utf8(vec@),
            Err(_) => !valid_utf8(vec@),
        },
;

/// The texts that the given byte strings encode, or `None` where one of them is not valid UTF-8.
pub open spec fn texts(list: Seq<Seq<u8>>) -> Option<Seq<Seq<char>>> {
    if forall|i: int| 0 <= i < list.len() ==> valid_utf8(#[trigger] list[i]) {
        Some(list.map_values(|bytes: Seq<u8>| decode_utf8(bytes)))
    } else {
        None
    }
}

/// Reads all texts, or fails at the first byte string that is not valid UTF-8.
pub fn read_texts(list: &Vec<Vec<u8>>) -> (read: Result<Vec<String>, FromUtf8Error>)
    ensures
        match read {
            Ok(read) => texts(byte_strings(list@)) == Some(read.deep_view()),
            Err(_) => texts(byte_strings(list@)) is None,
        },
{
    let ghost all = byte_strings(list@);
    let mut read: Vec<String> = Vec::new();
    let mut i: usize = 0;
    while i < list.len()
        invariant
            i <= list@.len(),
            all == byte_strings(list@),
            read@.len() == i,
            forall|j: int|
                0 <= j < i ==> valid_utf8(#[trigger] all[j]) && read@[j]@ == decode_utf8(all[j]),
        decreases list@.len() - i,
    {
        match String::from_utf8(copy_bytes(&list[i])) {
            Ok(text) => {
                read.push(text);
            },
            Err(error) => {
                assert(!valid_utf8(all[i as int]));
                return Err(error);
            },
        }
        i += 1;
    }
    assert(texts(all)->0 =~= read.deep_view());
    Ok(read)
}

/// A copy of a list of texts.
pub fn copy_texts(list: &Vec<String>) -> (copy: Vec<String>)
    ensures
        copy.deep_view() == list.deep_view(),
{
    let copy = list.clone();
    assert(copy.deep_view() =~= list.deep_view());
    copy
}

/// A list is read if and only if all of it is valid UTF-8, and then text by text.
pub proof fn law_texts_are_read_one_by_one(list: Seq<Seq<u8>>)
    ensures
        match texts(list) {
            Some(read) => {
                &&& read.len() == list.len()
                &&& forall|i: int|
                    0 <= i < list.len() ==> valid_utf8(list[i]) && #[trigger] read[i]
                        == decode_utf8(list[i])
            },
            None => exists|i: int| 0 <= i < list.len() && !valid_utf8(#[trigger] list[i]),
        },
{
    if texts(list) is Some {
        assert forall|i: int| 0 <= i < list.len() implies valid_utf8(list[i])
            && #[trigger] texts(list)->0[i] == decode_utf8(list[i]) by {
            assert(valid_utf8(list[i]));
        }
    }
}

} // verus!
