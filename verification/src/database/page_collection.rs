//! The page assembler: partitions the full file buffer into page-sized
//! windows and decodes one page per window, fail-fast.

use crate::database::DatabaseReadError;
use crate::database::header::DatabaseHeader;
use crate::database::header::spec_effective_page_size;
use crate::database::page::DatabasePage;
use crate::database::page::DatabasePageError;
use crate::database::page::spec_page_error_matches;
use crate::database::page::spec_page_matches;
use crate::database::page::spec_page_wf;
use vstd::arithmetic::div_mod::lemma_fundamental_div_mod;
use vstd::prelude::*;
use vstd::slice::slice_subrange;

verus! {

/// The decoded pages of one database file, in file order: position 0
/// corresponds to on-disk page number 1.
#[derive(Debug, PartialEq, Eq)]
pub struct PageCollection {
    pub pages: Vec<DatabasePage>,
}

/// Window `i` of the file buffer under effective page size `eff`: windows
/// are consecutive and non-overlapping, but window 0 starts after the 100
/// header bytes that the header decoder already consumed.
pub open spec fn spec_window(b: Seq<u8>, eff: int, i: int) -> Seq<u8> {
    if i == 0 {
        b.subrange(100, eff)
    } else {
        b.subrange(i * eff, (i + 1) * eff)
    }
}

/// How many windows the buffer partitions into.
pub open spec fn spec_num_windows(len: int, eff: int) -> int {
    if eff > 0 {
        len / eff
    } else {
        0
    }
}

/// A buffer that partitions exactly: either empty, or a whole multiple of
/// an effective page size that is large enough to contain the 100-byte
/// header inside its first window. Anything else is a truncated file.
pub open spec fn spec_framing_ok(len: int, eff: int) -> bool {
    len == 0 || (eff >= 100 && len % eff == 0)
}

/// Every window of the buffer decodes to a page.
pub open spec fn spec_all_windows_wf(b: Seq<u8>, eff: int) -> bool {
    forall|i: int|
        0 <= i < spec_num_windows(b.len() as int, eff) ==> spec_page_wf(
            #[trigger] spec_window(b, eff, i),
        )
}

/// The collection holds one decoded page per window, in window order.
pub open spec fn spec_collection_matches(c: PageCollection, b: Seq<u8>, eff: int) -> bool {
    &&& c.pages@.len() == spec_num_windows(b.len() as int, eff)
    &&& forall|i: int|
        0 <= i < c.pages@.len() ==> spec_page_matches(
            #[trigger] c.pages@[i],
            spec_window(b, eff, i),
        )
}

/// `e` is the decode error of the first window that does not decode, and
/// every window before it decodes.
pub open spec fn spec_first_page_error(e: DatabasePageError, b: Seq<u8>, eff: int) -> bool {
    exists|i: int|
        {
            &&& 0 <= i < spec_num_windows(b.len() as int, eff)
            &&& !spec_page_wf(#[trigger] spec_window(b, eff, i))
            &&& (forall|j: int| 0 <= j < i ==> spec_page_wf(#[trigger] spec_window(b, eff, j)))
            &&& spec_page_error_matches(e, spec_window(b, eff, i))
        }
}

impl PageCollection {
    /// Partitions the file buffer into windows of the effective page size
    /// and decodes each window into a page, in order, stopping at the first
    /// window that does not decode. A buffer that does not partition
    /// exactly is a truncated file and yields no pages at all.
    pub fn from_bytes(bytes: Vec<u8>, header: &DatabaseHeader) -> (r: Result<
        PageCollection,
        DatabaseReadError,
    >)
        ensures
            !spec_framing_ok(bytes@.len() as int, spec_effective_page_size(*header)) ==> r
                == Err::<PageCollection, DatabaseReadError>(DatabaseReadError::TruncatedFile),
            spec_framing_ok(bytes@.len() as int, spec_effective_page_size(*header))
                && !spec_all_windows_wf(bytes@, spec_effective_page_size(*header)) ==> (
            r matches Err(DatabaseReadError::InvalidPage(e)) && spec_first_page_error(
                e,
                bytes@,
                spec_effective_page_size(*header),
            )),
            spec_framing_ok(bytes@.len() as int, spec_effective_page_size(*header))
                && spec_all_windows_wf(bytes@, spec_effective_page_size(*header)) ==> (
            r matches Ok(c) && spec_collection_matches(
                c,
                bytes@,
                spec_effective_page_size(*header),
            )),
    {
        let eff = header.effective_page_size();
        let len = bytes.len();
        if len == 0 {
            let pages: Vec<DatabasePage> = Vec::new();
            return Ok(PageCollection { pages });
        }
        if eff < 100 {
            return Err(DatabaseReadError::TruncatedFile);
        }
        if len % eff != 0 {
            return Err(DatabaseReadError::TruncatedFile);
        }
        let n = len / eff;
        proof {
            lemma_fundamental_div_mod(len as int, eff as int);
            assert(eff * n == n * eff) by (nonlinear_arith);
            assert(n * eff == len);
        }
        let mut pages: Vec<DatabasePage> = Vec::new();
        let mut i: usize = 0;
        while i < n
            invariant
                i <= n,
                len == bytes@.len(),
                eff == spec_effective_page_size(*header),
                eff >= 100,
                len > 0,
                len % eff == 0,
                n == spec_num_windows(len as int, eff as int),
                n * eff == len,
                pages@.len() == i,
                forall|j: int|
                    0 <= j < i ==> spec_page_wf(#[trigger] spec_window(bytes@, eff as int, j)),
                forall|j: int|
                    0 <= j < i ==> spec_page_matches(
                        #[trigger] pages@[j],
                        spec_window(bytes@, eff as int, j),
                    ),
            decreases n - i,
        {
            proof {
                assert(i * eff <= (i + 1) * eff && (i + 1) * eff <= n * eff && (i == 0 ==> (i + 1)
                    * eff == eff)) by (nonlinear_arith)
                    requires
                        0 <= i,
                        i + 1 <= n,
                        eff >= 0,
                ;
            }
            let start = if i == 0 {
                100
            } else {
                i * eff
            };
            let end = (i + 1) * eff;
            proof {
                assert(end <= len);
                assert(start <= end);
            }
            let window = slice_subrange(bytes.as_slice(), start, end);
            proof {
                assert(window@ == spec_window(bytes@, eff as int, i as int));
            }
            match DatabasePage::try_from(window) {
                Ok(p) => {
                    pages.push(p);
                },
                Err(e) => {
                    proof {
                        assert(!spec_page_wf(spec_window(bytes@, eff as int, i as int)));
                    }
                    return Err(DatabaseReadError::InvalidPage(e));
                },
            }
            i += 1;
        }
        Ok(PageCollection { pages })
    }

    /// How many pages were decoded.
    pub fn len(&self) -> (r: usize)
        ensures
            r == self.pages@.len(),
    {
        self.pages.len()
    }

    /// The decoded page at position `i` (on-disk page number `i + 1`).
    pub fn get(&self, i: usize) -> (r: &DatabasePage)
        requires
            i < self.pages@.len(),
        ensures
            *r == self.pages@[i as int],
    {
        &self.pages[i]
    }
}

} // verus!
