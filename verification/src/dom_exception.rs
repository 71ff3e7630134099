//! `DOMException`: a name and a message, the legacy numeric code of the name, and the legacy
//! code constants.
use vstd::prelude::*;

use crate::text::{owned, push_chars, str_equals, string_from_chars};

verus! {

/// The legacy code of an exception name (0 for a name without one).
pub open spec fn name_code(name: Seq<char>) -> u16 {
    if name == "IndexSizeError"@ {
        1
    } else if name == "HierarchyRequestError"@ {
        3
    } else if name == "WrongDocumentError"@ {
        4
    } else if name == "InvalidCharacterError"@ {
        5
    } else if name == "NoModificationAllowedError"@ {
        7
    } else if name == "NotFoundError"@ {
        8
    } else if name == "NotSupportedError"@ {
        9
    } else if name == "InUseAttributeError"@ {
        10
    } else if name == "InvalidStateError"@ {
        11
    } else if name == "SyntaxError"@ {
        12
    } else if name == "InvalidModificationError"@ {
        13
    } else if name == "NamespaceError"@ {
        14
    } else if name == "InvalidAccessError"@ {
        15
    } else if name == "TypeMismatchError"@ {
        17
    } else if name == "SecurityError"@ {
        18
    } else if name == "NetworkError"@ {
        19
    } else if name == "AbortError"@ {
        20
    } else if name == "URLMismatchError"@ {
        21
    } else if name == "QuotaExceededError"@ {
        22
    } else if name == "TimeoutError"@ {
        23
    } else if name == "InvalidNodeTypeError"@ {
        24
    } else if name == "DataCloneError"@ {
        25
    } else {
        0
    }
}

/// The name of the legacy code constant with value `code` (1 through 25).
pub open spec fn legacy_constant_name(code: int) -> Seq<char> {
    if code == 1 {
        "INDEX_SIZE_ERR"@
    } else if code == 2 {
        "DOMSTRING_SIZE_ERR"@
    } else if code == 3 {
        "HIERARCHY_REQUEST_ERR"@
    } else if code == 4 {
        "WRONG_DOCUMENT_ERR"@
    } else if code == 5 {
        "INVALID_CHARACTER_ERR"@
    } else if code == 6 {
        "NO_DATA_ALLOWED_ERR"@
    } else if code == 7 {
        "NO_MODIFICATION_ALLOWED_ERR"@
    } else if code == 8 {
        "NOT_FOUND_ERR"@
    } else if code == 9 {
        "NOT_SUPPORTED_ERR"@
    } else if code == 10 {
        "INUSE_ATTRIBUTE_ERR"@
    } else if code == 11 {
        "INVALID_STATE_ERR"@
    } else if code == 12 {
        "SYNTAX_ERR"@
    } else if code == 13 {
        "INVALID_MODIFICATION_ERR"@
    } else if code == 14 {
        "NAMESPACE_ERR"@
    } else if code == 15 {
        "INVALID_ACCESS_ERR"@
    } else if code == 16 {
        "VALIDATION_ERR"@
    } else if code == 17 {
        "TYPE_MISMATCH_ERR"@
    } else if code == 18 {
        "SECURITY_ERR"@
    } else if code == 19 {
        "NETWORK_ERR"@
    } else if code == 20 {
        "ABORT_ERR"@
    } else if code == 21 {
        "URL_MISMATCH_ERR"@
    } else if code == 22 {
        "QUOTA_EXCEEDED_ERR"@
    } else if code == 23 {
        "TIMEOUT_ERR"@
    } else if code == 24 {
        "INVALID_NODE_TYPE_ERR"@
    } else if code == 25 {
        "DATA_CLONE_ERR"@
    } else {
        Seq::empty()
    }
}

/// The DOM standard's error names table: each name that has a legacy code, with the name of
/// the legacy code constant it maps to.
pub open spec fn names_with_legacy_codes() -> Seq<(Seq<char>, Seq<char>)> {
    seq![
        ("IndexSizeError"@, "INDEX_SIZE_ERR"@),
        ("HierarchyRequestError"@, "HIERARCHY_REQUEST_ERR"@),
        ("WrongDocumentError"@, "WRONG_DOCUMENT_ERR"@),
        ("InvalidCharacterError"@, "INVALID_CHARACTER_ERR"@),
        ("NoModificationAllowedError"@, "NO_MODIFICATION_ALLOWED_ERR"@),
        ("NotFoundError"@, "NOT_FOUND_ERR"@),
        ("NotSupportedError"@, "NOT_SUPPORTED_ERR"@),
        ("InUseAttributeError"@, "INUSE_ATTRIBUTE_ERR"@),
        ("InvalidStateError"@, "INVALID_STATE_ERR"@),
        ("SyntaxError"@, "SYNTAX_ERR"@),
        ("InvalidModificationError"@, "INVALID_MODIFICATION_ERR"@),
        ("NamespaceError"@, "NAMESPACE_ERR"@),
        ("InvalidAccessError"@, "INVALID_ACCESS_ERR"@),
        ("TypeMismatchError"@, "TYPE_MISMATCH_ERR"@),
        ("SecurityError"@, "SECURITY_ERR"@),
        ("NetworkError"@, "NETWORK_ERR"@),
        ("AbortError"@, "ABORT_ERR"@),
        ("URLMismatchError"@, "URL_MISMATCH_ERR"@),
        ("QuotaExceededError"@, "QUOTA_EXCEEDED_ERR"@),
        ("TimeoutError"@, "TIMEOUT_ERR"@),
        ("InvalidNodeTypeError"@, "INVALID_NODE_TYPE_ERR"@),
        ("DataCloneError"@, "DATA_CLONE_ERR"@),
    ]
}

/// The names of the DOM standard's error names table that have no legacy code.
pub open spec fn names_without_legacy_codes() -> Seq<Seq<char>> {
    seq![
        "EncodingError"@,
        "NotReadableError"@,
        "UnknownError"@,
        "ConstraintError"@,
        "DataError"@,
        "TransactionInactiveError"@,
        "ReadOnlyError"@,
        "VersionError"@,
        "OperationError"@,
        "NotAllowedError"@,
        "OptOutError"@,
    ]
}

/// Every name of the error names table that has a legacy code gets the value of its legacy
/// code constant (`"InvalidStateError"` gets 11, the value of `INVALID_STATE_ERR`), never 0;
/// every name the table lists without one gets 0.
pub proof fn names_get_the_code_of_their_constant()
    ensures
        forall|i: int|
            0 <= i < names_with_legacy_codes().len() ==> {
                let (name, constant) = #[trigger] names_with_legacy_codes()[i];
                &&& name_code(name) != 0
                &&& legacy_constant_name(name_code(name) as int) == constant
            },
        forall|i: int|
            0 <= i < names_without_legacy_codes().len() ==> name_code(#[trigger] names_without_legacy_codes()[i]) == 0,
{
    reveal_strlit("IndexSizeError");
    reveal_strlit("HierarchyRequestError");
    reveal_strlit("WrongDocumentError");
    reveal_strlit("InvalidCharacterError");
    reveal_strlit("NoModificationAllowedError");
    reveal_strlit("NotFoundError");
    reveal_strlit("NotSupportedError");
    reveal_strlit("InUseAttributeError");
    reveal_strlit("InvalidStateError");
    reveal_strlit("SyntaxError");
    reveal_strlit("InvalidModificationError");
    reveal_strlit("NamespaceError");
    reveal_strlit("InvalidAccessError");
    reveal_strlit("TypeMismatchError");
    reveal_strlit("SecurityError");
    reveal_strlit("NetworkError");
    reveal_strlit("AbortError");
    reveal_strlit("URLMismatchError");
    reveal_strlit("QuotaExceededError");
    reveal_strlit("TimeoutError");
    reveal_strlit("InvalidNodeTypeError");
    reveal_strlit("DataCloneError");
    reveal_strlit("EncodingError");
    reveal_strlit("NotReadableError");
    reveal_strlit("UnknownError");
    reveal_strlit("ConstraintError");
    reveal_strlit("DataError");
    reveal_strlit("TransactionInactiveError");
    reveal_strlit("ReadOnlyError");
    reveal_strlit("VersionError");
    reveal_strlit("OperationError");
    reveal_strlit("NotAllowedError");
    reveal_strlit("OptOutError");
    // the names differ: by length, or else at a first differing character
    assert("IndexSizeError"@.len() == 14);
    assert("HierarchyRequestError"@.len() == 21);
    assert("WrongDocumentError"@.len() == 18);
    assert("InvalidCharacterError"@.len() == 21);
    assert("NoModificationAllowedError"@.len() == 26);
    assert("NotFoundError"@.len() == 13);
    assert("NotSupportedError"@.len() == 17);
    assert("InUseAttributeError"@.len() == 19);
    assert("InvalidStateError"@.len() == 17);
    assert("SyntaxError"@.len() == 11);
    assert("InvalidModificationError"@.len() == 24);
    assert("NamespaceError"@.len() == 14);
    assert("InvalidAccessError"@.len() == 18);
    assert("TypeMismatchError"@.len() == 17);
    assert("SecurityError"@.len() == 13);
    assert("NetworkError"@.len() == 12);
    assert("AbortError"@.len() == 10);
    assert("URLMismatchError"@.len() == 16);
    assert("QuotaExceededError"@.len() == 18);
    assert("TimeoutError"@.len() == 12);
    assert("InvalidNodeTypeError"@.len() == 20);
    assert("DataCloneError"@.len() == 14);
    assert("EncodingError"@.len() == 13);
    assert("NotReadableError"@.len() == 16);
    assert("UnknownError"@.len() == 12);
    assert("ConstraintError"@.len() == 15);
    assert("DataError"@.len() == 9);
    assert("TransactionInactiveError"@.len() == 24);
    assert("ReadOnlyError"@.len() == 13);
    assert("VersionError"@.len() == 12);
    assert("OperationError"@.len() == 14);
    assert("NotAllowedError"@.len() == 15);
    assert("OptOutError"@.len() == 11);
    assert("IndexSizeError"@[0] != "NamespaceError"@[0]);
    assert("IndexSizeError"@[0] != "DataCloneError"@[0]);
    assert("IndexSizeError"@[0] != "OperationError"@[0]);
    assert("HierarchyRequestError"@[0] != "InvalidCharacterError"@[0]);
    assert("WrongDocumentError"@[0] != "InvalidAccessError"@[0]);
    assert("WrongDocumentError"@[0] != "QuotaExceededError"@[0]);
    assert("NotFoundError"@[0] != "SecurityError"@[0]);
    assert("NotFoundError"@[0] != "EncodingError"@[0]);
    assert("NotFoundError"@[0] != "ReadOnlyError"@[0]);
    assert("NotSupportedError"@[0] != "InvalidStateError"@[0]);
    assert("NotSupportedError"@[0] != "TypeMismatchError"@[0]);
    assert("InvalidStateError"@[0] != "TypeMismatchError"@[0]);
    assert("SyntaxError"@[0] != "OptOutError"@[0]);
    assert("InvalidModificationError"@[0] != "TransactionInactiveError"@[0]);
    assert("NamespaceError"@[0] != "DataCloneError"@[0]);
    assert("NamespaceError"@[0] != "OperationError"@[0]);
    assert("InvalidAccessError"@[0] != "QuotaExceededError"@[0]);
    assert("SecurityError"@[0] != "EncodingError"@[0]);
    assert("SecurityError"@[0] != "ReadOnlyError"@[0]);
    assert("NetworkError"@[0] != "TimeoutError"@[0]);
    assert("NetworkError"@[0] != "UnknownError"@[0]);
    assert("NetworkError"@[0] != "VersionError"@[0]);
    assert("URLMismatchError"@[0] != "NotReadableError"@[0]);
    assert("TimeoutError"@[0] != "UnknownError"@[0]);
    assert("TimeoutError"@[0] != "VersionError"@[0]);
    assert("DataCloneError"@[0] != "OperationError"@[0]);
    assert("EncodingError"@[0] != "ReadOnlyError"@[0]);
    assert("UnknownError"@[0] != "VersionError"@[0]);
    assert("ConstraintError"@[0] != "NotAllowedError"@[0]);
    assert forall|i: int| 0 <= i < names_with_legacy_codes().len() implies {
        let (name, constant) = #[trigger] names_with_legacy_codes()[i];
        &&& name_code(name) != 0
        &&& legacy_constant_name(name_code(name) as int) == constant
    } by {
        if i == 0 {
            assert(names_with_legacy_codes()[0] == ("IndexSizeError"@, "INDEX_SIZE_ERR"@));
            assert(name_code("IndexSizeError"@) == 1);
        } else if i == 1 {
            assert(names_with_legacy_codes()[1] == ("HierarchyRequestError"@, "HIERARCHY_REQUEST_ERR"@));
            assert(name_code("HierarchyRequestError"@) == 3);
        } else if i == 2 {
            assert(names_with_legacy_codes()[2] == ("WrongDocumentError"@, "WRONG_DOCUMENT_ERR"@));
            assert(name_code("WrongDocumentError"@) == 4);
        } else if i == 3 {
            assert(names_with_legacy_codes()[3] == ("InvalidCharacterError"@, "INVALID_CHARACTER_ERR"@));
            assert(name_code("InvalidCharacterError"@) == 5);
        } else if i == 4 {
            assert(names_with_legacy_codes()[4] == ("NoModificationAllowedError"@, "NO_MODIFICATION_ALLOWED_ERR"@));
            assert(name_code("NoModificationAllowedError"@) == 7);
        } else if i == 5 {
            assert(names_with_legacy_codes()[5] == ("NotFoundError"@, "NOT_FOUND_ERR"@));
            assert(name_code("NotFoundError"@) == 8);
        } else if i == 6 {
            assert(names_with_legacy_codes()[6] == ("NotSupportedError"@, "NOT_SUPPORTED_ERR"@));
            assert(name_code("NotSupportedError"@) == 9);
        } else if i == 7 {
            assert(names_with_legacy_codes()[7] == ("InUseAttributeError"@, "INUSE_ATTRIBUTE_ERR"@));
            assert(name_code("InUseAttributeError"@) == 10);
        } else if i == 8 {
            assert(names_with_legacy_codes()[8] == ("InvalidStateError"@, "INVALID_STATE_ERR"@));
            assert(name_code("InvalidStateError"@) == 11);
        } else if i == 9 {
            assert(names_with_legacy_codes()[9] == ("SyntaxError"@, "SYNTAX_ERR"@));
            assert(name_code("SyntaxError"@) == 12);
        } else if i == 10 {
            assert(names_with_legacy_codes()[10] == ("InvalidModificationError"@, "INVALID_MODIFICATION_ERR"@));
            assert(name_code("InvalidModificationError"@) == 13);
        } else if i == 11 {
            assert(names_with_legacy_codes()[11] == ("NamespaceError"@, "NAMESPACE_ERR"@));
            assert(name_code("NamespaceError"@) == 14);
        } else if i == 12 {
            assert(names_with_legacy_codes()[12] == ("InvalidAccessError"@, "INVALID_ACCESS_ERR"@));
            assert(name_code("InvalidAccessError"@) == 15);
        } else if i == 13 {
            assert(names_with_legacy_codes()[13] == ("TypeMismatchError"@, "TYPE_MISMATCH_ERR"@));
            assert(name_code("TypeMismatchError"@) == 17);
        } else if i == 14 {
            assert(names_with_legacy_codes()[14] == ("SecurityError"@, "SECURITY_ERR"@));
            assert(name_code("SecurityError"@) == 18);
        } else if i == 15 {
            assert(names_with_legacy_codes()[15] == ("NetworkError"@, "NETWORK_ERR"@));
            assert(name_code("NetworkError"@) == 19);
        } else if i == 16 {
            assert(names_with_legacy_codes()[16] == ("AbortError"@, "ABORT_ERR"@));
            assert(name_code("AbortError"@) == 20);
        } else if i == 17 {
            assert(names_with_legacy_codes()[17] == ("URLMismatchError"@, "URL_MISMATCH_ERR"@));
            assert(name_code("URLMismatchError"@) == 21);
        } else if i == 18 {
            assert(names_with_legacy_codes()[18] == ("QuotaExceededError"@, "QUOTA_EXCEEDED_ERR"@));
            assert(name_code("QuotaExceededError"@) == 22);
        } else if i == 19 {
            assert(names_with_legacy_codes()[19] == ("TimeoutError"@, "TIMEOUT_ERR"@));
            assert(name_code("TimeoutError"@) == 23);
        } else if i == 20 {
            assert(names_with_legacy_codes()[20] == ("InvalidNodeTypeError"@, "INVALID_NODE_TYPE_ERR"@));
            assert(name_code("InvalidNodeTypeError"@) == 24);
        } else if i == 21 {
            assert(names_with_legacy_codes()[21] == ("DataCloneError"@, "DATA_CLONE_ERR"@));
            assert(name_code("DataCloneError"@) == 25);
        }
    }
    assert forall|i: int| 0 <= i < names_without_legacy_codes().len() implies name_code(
        #[trigger] names_without_legacy_codes()[i],
    ) == 0 by {
        if i == 0 {
            assert(names_without_legacy_codes()[0] == "EncodingError"@);
            assert(name_code("EncodingError"@) == 0);
        } else if i == 1 {
            assert(names_without_legacy_codes()[1] == "NotReadableError"@);
            assert(name_code("NotReadableError"@) == 0);
        } else if i == 2 {
            assert(names_without_legacy_codes()[2] == "UnknownError"@);
            assert(name_code("UnknownError"@) == 0);
        } else if i == 3 {
            assert(names_without_legacy_codes()[3] == "ConstraintError"@);
            assert(name_code("ConstraintError"@) == 0);
        } else if i == 4 {
            assert(names_without_legacy_codes()[4] == "DataError"@);
            assert(name_code("DataError"@) == 0);
        } else if i == 5 {
            assert(names_without_legacy_codes()[5] == "TransactionInactiveError"@);
            assert(name_code("TransactionInactiveError"@) == 0);
        } else if i == 6 {
            assert(names_without_legacy_codes()[6] == "ReadOnlyError"@);
            assert(name_code("ReadOnlyError"@) == 0);
        } else if i == 7 {
            assert(names_without_legacy_codes()[7] == "VersionError"@);
            assert(name_code("VersionError"@) == 0);
        } else if i == 8 {
            assert(names_without_legacy_codes()[8] == "OperationError"@);
            assert(name_code("OperationError"@) == 0);
        } else if i == 9 {
            assert(names_without_legacy_codes()[9] == "NotAllowedError"@);
            assert(name_code("NotAllowedError"@) == 0);
        } else if i == 10 {
            assert(names_without_legacy_codes()[10] == "OptOutError"@);
            assert(name_code("OptOutError"@) == 0);
        }
    }
}


/// The legacy code of an exception name (0 for a name without one).
pub fn code_of_name(name: &str) -> (c: u16)
    ensures
        c == name_code(name@),
{
    if str_equals(name, "IndexSizeError") {
        1
    } else if str_equals(name, "HierarchyRequestError") {
        3
    } else if str_equals(name, "WrongDocumentError") {
        4
    } else if str_equals(name, "InvalidCharacterError") {
        5
    } else if str_equals(name, "NoModificationAllowedError") {
        7
    } else if str_equals(name, "NotFoundError") {
        8
    } else if str_equals(name, "NotSupportedError") {
        9
    } else if str_equals(name, "InUseAttributeError") {
        10
    } else if str_equals(name, "InvalidStateError") {
        11
    } else if str_equals(name, "SyntaxError") {
        12
    } else if str_equals(name, "InvalidModificationError") {
        13
    } else if str_equals(name, "NamespaceError") {
        14
    } else if str_equals(name, "InvalidAccessError") {
        15
    } else if str_equals(name, "TypeMismatchError") {
        17
    } else if str_equals(name, "SecurityError") {
        18
    } else if str_equals(name, "NetworkError") {
        19
    } else if str_equals(name, "AbortError") {
        20
    } else if str_equals(name, "URLMismatchError") {
        21
    } else if str_equals(name, "QuotaExceededError") {
        22
    } else if str_equals(name, "TimeoutError") {
        23
    } else if str_equals(name, "InvalidNodeTypeError") {
        24
    } else if str_equals(name, "DataCloneError") {
        25
    } else {
        0
    }
}

/// The legacy code constants, in code order: entry `i` is the constant with value `i + 1`.
pub fn legacy_constants() -> (r: Vec<(String, u16)>)
    ensures
        r@.len() == 25,
        forall|i: int| 0 <= i < 25 ==> #[trigger] r@[i].1 == i + 1 && r@[i].0@ == legacy_constant_name(i + 1),
{
    let mut r: Vec<(String, u16)> = Vec::new();
    r.push((owned("INDEX_SIZE_ERR"), 1));
    r.push((owned("DOMSTRING_SIZE_ERR"), 2));
    r.push((owned("HIERARCHY_REQUEST_ERR"), 3));
    r.push((owned("WRONG_DOCUMENT_ERR"), 4));
    r.push((owned("INVALID_CHARACTER_ERR"), 5));
    r.push((owned("NO_DATA_ALLOWED_ERR"), 6));
    r.push((owned("NO_MODIFICATION_ALLOWED_ERR"), 7));
    r.push((owned("NOT_FOUND_ERR"), 8));
    r.push((owned("NOT_SUPPORTED_ERR"), 9));
    r.push((owned("INUSE_ATTRIBUTE_ERR"), 10));
    r.push((owned("INVALID_STATE_ERR"), 11));
    r.push((owned("SYNTAX_ERR"), 12));
    r.push((owned("INVALID_MODIFICATION_ERR"), 13));
    r.push((owned("NAMESPACE_ERR"), 14));
    r.push((owned("INVALID_ACCESS_ERR"), 15));
    r.push((owned("VALIDATION_ERR"), 16));
    r.push((owned("TYPE_MISMATCH_ERR"), 17));
    r.push((owned("SECURITY_ERR"), 18));
    r.push((owned("NETWORK_ERR"), 19));
    r.push((owned("ABORT_ERR"), 20));
    r.push((owned("URL_MISMATCH_ERR"), 21));
    r.push((owned("QUOTA_EXCEEDED_ERR"), 22));
    r.push((owned("TIMEOUT_ERR"), 23));
    r.push((owned("INVALID_NODE_TYPE_ERR"), 24));
    r.push((owned("DATA_CLONE_ERR"), 25));
    r
}

/// `DOMException`.
pub struct DOMException {
    name: String,
    message: String,
}

/// The view of an exception: its name and message.
pub struct DOMExceptionView {
    pub name: Seq<char>,
    pub message: Seq<char>,
}

impl View for DOMException {
    type V = DOMExceptionView;

    closed spec fn view(&self) -> DOMExceptionView {
        DOMExceptionView { name: self.name@, message: self.message@ }
    }
}

/// What `toString()` gives: the name alone when the message is empty, else `name: message`.
pub open spec fn exception_text(name: Seq<char>, message: Seq<char>) -> Seq<char> {
    if message.len() == 0 {
        name
    } else {
        name + seq![':', ' '] + message
    }
}

impl DOMException {
    /// `new DOMException(message, name)`: the message defaults to the empty string and the
    /// name to `Error`.
    pub fn new(message: Option<String>, name: Option<String>) -> (e: DOMException)
        ensures
            e@.message == match message {
                Some(m) => m@,
                None => Seq::<char>::empty(),
            },
            e@.name == match name {
                Some(n) => n@,
                None => "Error"@,
            },
    {
        DOMException {
            message: match message {
                Some(m) => m,
                None => String::new(),
            },
            name: match name {
                Some(n) => n,
                None => owned("Error"),
            },
        }
    }

    /// `name`.
    pub fn name(&self) -> (n: String)
        ensures
            n@ == self@.name,
    {
        owned(self.name.as_str())
    }

    /// `message`.
    pub fn message(&self) -> (m: String)
        ensures
            m@ == self@.message,
    {
        owned(self.message.as_str())
    }

    /// `code`: the legacy code of the name.
    pub fn code(&self) -> (c: u16)
        ensures
            c == name_code(self@.name),
    {
        code_of_name(self.name.as_str())
    }

    /// `toString()`.
    pub fn to_string(&self) -> (s: String)
        ensures
            s@ == exception_text(self@.name, self@.message),
    {
        if self.message.as_str().is_empty() {
            return owned(self.name.as_str());
        }
        let mut out: Vec<char> = Vec::new();
        push_chars(&mut out, &self.name);
        out.push(':');
        out.push(' ');
        push_chars(&mut out, &self.message);
        assert(out@ =~= exception_text(self@.name, self@.message));
        string_from_chars(&out)
    }
}

/// Why a transferred exception could not be rebuilt.
#[derive(Debug, Clone, Copy, PartialEq, Eq, Structural)]
pub enum TransferError {
    /// The transferred list does not hold exactly three items.
    ExpectedThreeItems,
}

impl DOMException {
    /// What a structured clone transfers: the name, the message and the stack, in that order.
    pub fn to_transfer(&self, stack: String) -> (r: Vec<String>)
        ensures
            r@.map_values(|x: String| x@) == transfer_list(self@, stack@),
    {
        let mut v: Vec<String> = Vec::new();
        v.push(owned(self.name.as_str()));
        v.push(owned(self.message.as_str()));
        v.push(stack);
        assert(v@.map_values(|x: String| x@) =~= transfer_list(self@, v@[2]@));
        v
    }

    /// Rebuilds a transferred exception, with its stack, from exactly three items: name,
    /// message, stack.
    pub fn from_transfer(mut list: Vec<String>) -> (r: Result<(DOMException, String), TransferError>)
        ensures
            match r {
                Ok((e, st)) => rebuilt(list@.map_values(|x: String| x@)) == Some((e@, st@)),
                Err(_) => rebuilt(list@.map_values(|x: String| x@)) is None,
            },
    {
        if list.len() != 3 {
            return Err(TransferError::ExpectedThreeItems);
        }
        let ghost l = list@;
        let stack = list.pop().unwrap();
        let message = list.pop().unwrap();
        let name = list.pop().unwrap();
        Ok((DOMException { name, message }, stack))
    }
}

/// The list a structured clone transfers for an exception and its stack.
pub open spec fn transfer_list(e: DOMExceptionView, stack: Seq<char>) -> Seq<Seq<char>> {
    seq![e.name, e.message, stack]
}

/// The exception and stack rebuilt from a transferred list, when it holds three items.
pub open spec fn rebuilt(list: Seq<Seq<char>>) -> Option<(DOMExceptionView, Seq<char>)> {
    if list.len() == 3 {
        Some((DOMExceptionView { name: list[0], message: list[1] }, list[2]))
    } else {
        None
    }
}

/// A transferred exception is rebuilt as it was, stack included.
pub proof fn lemma_transfer_round_trip(e: DOMExceptionView, stack: Seq<char>)
    ensures
        rebuilt(transfer_list(e, stack)) == Some((e, stack)),
{
}

} // verus!
