//! The document registry: the single source of truth for the document and
//! version log, pushing every published content hash out to the collaborating
//! asset ledger's attribute table.

use vstd::prelude::*;

use crate::data_structure::{
    AccountId, Balance, DocumentState, DocumentView, MAX_VERSIONS, NftDocument, PostOwner,
    Version, append_version, archived, doc_wf, docs_wf, first_version, lemma_docs_wf_push,
    lemma_mirror_after_append, lemma_mirror_insert_new_doc, lemma_mirror_push, mirror_wf,
    new_document, next_version, version_sub_key,
};
use crate::traits::managing_logic::{DOCUMENT_MINT_AMOUNT, Error, ManagingLogic};
use crate::traits::native_token::NativeToken;
use crate::traits::nft_token::NftToken;

verus! {

/// The document registry, holding the authoritative document log and
/// handles to its two collaborating ledgers.
pub struct NftCollection<T: NftToken, N: NativeToken> {
    /// The authoritative document log.
    pub docs: Vec<NftDocument>,
    /// Handle to the collaborating balance ledger.
    pub native_token_ref: N,
    /// Handle to the collaborating asset ledger.
    pub nft_token_ref: T,
}

impl<T: NftToken, N: NativeToken> NftCollection<T, N> {
    /// A fresh registry over the two injected ledgers.  The ledgers are
    /// constructed once by the composition root and handed in; an empty
    /// document log is well formed beside any attribute table.
    pub fn new(native_token_ref: N, nft_token_ref: T) -> (r: Self)
        ensures
            r.docs_view() == Seq::<DocumentView>::empty(),
            r.attributes_view() == nft_token_ref.attributes(),
            r.balances_view() == nft_token_ref.balances(),
            r.asset_supply_view() == nft_token_ref.asset_supply(),
            r.class_count_view() == nft_token_ref.class_count(),
            r.native_balances_view() == native_token_ref.balances(),
            r.wf(),
    {
        let r = NftCollection { docs: Vec::new(), native_token_ref, nft_token_ref };
        proof {
            assert(r.docs_view() =~= Seq::<DocumentView>::empty());
        }
        r
    }

}

impl<T: NftToken, N: NativeToken> ManagingLogic for NftCollection<T, N> {
    open spec fn docs_view(&self) -> Seq<DocumentView> {
        self.docs@.map_values(|d: NftDocument| d@)
    }

    open spec fn attributes_view(&self) -> Map<(u32, Seq<u8>), Seq<char>> {
        self.nft_token_ref.attributes()
    }

    open spec fn balances_view(&self) -> Map<(u32, AccountId), Balance> {
        self.nft_token_ref.balances()
    }

    open spec fn asset_supply_view(&self) -> Map<u32, Balance> {
        self.nft_token_ref.asset_supply()
    }

    open spec fn class_count_view(&self) -> Balance {
        self.nft_token_ref.class_count()
    }

    open spec fn native_balances_view(&self) -> Map<AccountId, Balance> {
        self.native_token_ref.balances()
    }

    open spec fn create_document_ok(&self, caller: AccountId, ipfs_hash: Seq<char>) -> bool {
        &&& self.nft_token_ref.mint_ok(
            caller,
            self.docs_view().len() as u32,
            DOCUMENT_MINT_AMOUNT,
        )
        &&& self.nft_token_ref.set_attribute_ok(
            self.docs_view().len() as u32,
            version_sub_key(0),
            ipfs_hash,
        )
    }

    open spec fn create_version_document_ok(&self, doc_id: u32, ipfs_hash: Seq<char>) -> bool {
        self.nft_token_ref.set_attribute_ok(
            doc_id,
            version_sub_key(self.docs_view()[doc_id as int].versions.len() as int),
            ipfs_hash,
        )
    }

    open spec fn wf(&self) -> bool {
        docs_wf(self.docs_view()) && mirror_wf(self.docs_view(), self.attributes_view())
    }

    fn get_nfts(&self) -> (r: Vec<NftDocument>) {
        let mut r: Vec<NftDocument> = Vec::new();
        let mut i: usize = 0;
        while i < self.docs.len()
            invariant
                i <= self.docs.len(),
                r@.len() == i,
                forall|k: int| 0 <= k < i ==> r@[k]@ == self.docs@[k]@,
            decreases self.docs.len() - i,
        {
            r.push(self.docs[i].clone());
            i = i + 1;
        }
        proof {
            assert(r@.map_values(|d: NftDocument| d@) =~= self.docs@.map_values(
                |d: NftDocument| d@,
            ));
        }
        r
    }

    fn get_nfts_length(&self) -> (r: u32) {
        self.docs.len() as u32
    }

    fn get_version_doc_length(&self, doc_id: u32) -> (r: Result<u8, Error>) {
        if (doc_id as usize) < self.docs.len() {
            proof {
                assert(doc_wf(self.docs_view()[doc_id as int]));
            }
            Ok(self.docs[doc_id as usize].versions.len() as u8)
        } else {
            Err(Error::DocumentNotFound)
        }
    }

    fn add_nft(&mut self, nft: NftDocument) {
        proof {
            lemma_docs_wf_push(self.docs_view(), nft@);
            lemma_mirror_push(self.docs_view(), self.attributes_view(), nft@);
        }
        self.docs.push(nft);
        proof {
            assert(self.docs_view() =~= old(self).docs_view().push(nft@));
        }
    }

    fn get_document(&self, doc_id: u32) -> (r: Option<NftDocument>) {
        if (doc_id as usize) < self.docs.len() {
            Some(self.docs[doc_id as usize].clone())
        } else {
            None
        }
    }

    fn create_document(&mut self, caller: AccountId, title: String, ipfs_hash: String) -> (r:
        Result<NftDocument, Error>) {
        let post_id: u32 = self.get_nfts_length();
        match self.nft_token_ref.mint(caller, post_id, DOCUMENT_MINT_AMOUNT) {
            Ok(u) => {},
            Err(e) => {
                return Err(Error::CollaboratorCallFailed);
            },
        }
        let version_key: Vec<u8> = vec![0u8];
        proof {
            assert(version_key@ =~= version_sub_key(0));
        }
        match self.nft_token_ref.set_attribute(post_id, version_key, ipfs_hash.clone()) {
            Ok(u) => {},
            Err(e) => {
                return Err(Error::CollaboratorCallFailed);
            },
        }
        proof {
            lemma_mirror_insert_new_doc(
                old(self).docs_view(),
                old(self).attributes_view(),
                post_id,
                version_sub_key(0),
                ipfs_hash@,
            );
        }
        let new_version = Version {
            version_id: 0,
            contributor: caller,
            ipfs_hash: ipfs_hash.clone(),
            state: DocumentState::Published,
        };
        let mut versions: Vec<Version> = Vec::new();
        versions.push(new_version);
        let vec_post_owner: Vec<PostOwner> = Vec::new();
        let new_doc = NftDocument {
            id: post_id,
            owner: caller,
            title,
            ipfs_hash_doc: ipfs_hash,
            post_owner: vec_post_owner,
            versions,
            version_id_publish: 0,
            number_upload: 1,
        };
        let ret = new_doc.clone();
        proof {
            assert(new_doc@.versions =~= seq![first_version(caller, ipfs_hash@)]);
            assert(new_doc@ =~= new_document(post_id, caller, title@, ipfs_hash@));
            assert(doc_wf(new_doc@)) by {
                crate::data_structure::lemma_new_document_well_formed(
                    post_id,
                    caller,
                    title@,
                    ipfs_hash@,
                );
            }
        }
        self.add_nft(new_doc);
        Ok(ret)
    }

    fn create_version_document(&mut self, caller: AccountId, doc_id: u32, ipfs_hash: String) -> (r:
        Result<Version, Error>) {
        let len = self.get_nfts_length();
        if doc_id >= len {
            return Err(Error::DocumentNotFound);
        }
        let next_version_id: u8 = match self.get_version_doc_length(doc_id) {
            Ok(n) => n,
            Err(e) => {
                return Err(e);
            },
        };
        proof {
            assert(doc_wf(self.docs_view()[doc_id as int]));
        }
        let version_key: Vec<u8> = vec![next_version_id];
        proof {
            assert(version_key@ =~= version_sub_key(next_version_id as int));
        }
        match self.nft_token_ref.set_attribute(doc_id, version_key, ipfs_hash.clone()) {
            Ok(u) => {},
            Err(e) => {
                return Err(Error::CollaboratorCallFailed);
            },
        }
        proof {
            lemma_mirror_after_append(
                old(self).docs_view(),
                old(self).attributes_view(),
                doc_id,
                caller,
                ipfs_hash@,
            );
        }
        let ghost old_doc_view = old(self).docs_view()[doc_id as int];
        let mut doc = self.docs.remove(doc_id as usize);
        proof {
            assert(doc@ == old_doc_view);
        }
        let publish_idx: usize = doc.version_id_publish as usize;
        let mut prev = doc.versions.remove(publish_idx);
        prev.state = DocumentState::Archived;
        doc.versions.insert(publish_idx, prev);
        proof {
            assert(doc.versions@.map_values(|v: Version| v@) =~= old_doc_view.versions.update(
                old_doc_view.version_id_publish as int,
                archived(old_doc_view.versions[old_doc_view.version_id_publish as int]),
            ));
        }
        let new_version = Version {
            version_id: next_version_id,
            contributor: caller,
            ipfs_hash: ipfs_hash.clone(),
            state: DocumentState::Published,
        };
        let ret = new_version.clone();
        proof {
            assert(ret@ =~= next_version(old_doc_view, caller, ipfs_hash@));
        }
        doc.versions.push(new_version);
        doc.ipfs_hash_doc = ipfs_hash;
        doc.version_id_publish = next_version_id;
        doc.number_upload = doc.number_upload + 1;
        proof {
            assert(doc@ =~= append_version(old_doc_view, caller, ipfs_hash@));
        }
        self.docs.insert(doc_id as usize, doc);
        proof {
            assert(self.docs_view() =~= old(self).docs_view().update(
                doc_id as int,
                append_version(old_doc_view, caller, ipfs_hash@),
            ));
        }
        Ok(ret)
    }

    fn get_total_supply(&self, token_id: Option<u32>) -> (r: Balance) {
        self.nft_token_ref.total_supply(token_id)
    }

    fn get_attribute_version(&self, token_id: u32, version_id: Vec<u8>) -> (r: Option<String>) {
        self.nft_token_ref.get_attribute(token_id, version_id)
    }
}

} // verus!
