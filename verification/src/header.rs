//! The fields of the content header that binds the parts into one package.
//! The header's bytes are laid out by the caller; what goes into them is
//! decided here.

use crate::geometry::{
    spec_parts_total_size, parts_total_size, Geometry, ImageError,
};
use crate::title::{opt_view, ContentType, TitleExecutionInfo, TitleInfo};
use vstd::prelude::*;
use vstd::string::*;

verus! {

/// What the content header says of a package.
#[derive(Clone, Debug, PartialEq, Eq)]
pub struct ConHeader {
    pub execution_info: TitleExecutionInfo,
    pub content_type: ContentType,
    /// Number of payload blocks.
    pub block_count: u32,
    /// Number of blocks set aside and not used; always zero here.
    pub unallocated_block_count: u16,
    /// Number of part files.
    pub part_count: u32,
    /// Size in bytes of all part files together.
    pub parts_total_size: u64,
    /// Digest of the first part's hash table, with the chain closed.
    pub mht_hash: [u8; 20],
    /// The title to show, if any.
    pub game_title: Option<String>,
}

/// A header as plain values.
pub struct ConHeaderView {
    pub execution_info: TitleExecutionInfo,
    pub content_type: ContentType,
    pub block_count: u32,
    pub unallocated_block_count: u16,
    pub part_count: u32,
    pub parts_total_size: u64,
    pub mht_hash: Seq<u8>,
    pub game_title: Option<Seq<char>>,
}

impl View for ConHeader {
    type V = ConHeaderView;

    open spec fn view(&self) -> ConHeaderView {
        ConHeaderView {
            execution_info: self.execution_info,
            content_type: self.content_type,
            block_count: self.block_count,
            unallocated_block_count: self.unallocated_block_count,
            part_count: self.part_count,
            parts_total_size: self.parts_total_size,
            mht_hash: self.mht_hash@,
            game_title: opt_view(self.game_title),
        }
    }
}

/// Gathers what a header says, field by field.
pub struct ConHeaderBuilder {
    pub execution_info: Option<TitleExecutionInfo>,
    pub block_counts: Option<(u32, u16)>,
    pub data_parts_info: Option<(u32, u64)>,
    pub content_type: Option<ContentType>,
    pub mht_hash: Option<[u8; 20]>,
    pub game_title: Option<String>,
}

/// What has been gathered so far, as plain values.
pub struct ConHeaderBuilderView {
    pub execution_info: Option<TitleExecutionInfo>,
    pub block_counts: Option<(u32, u16)>,
    pub data_parts_info: Option<(u32, u64)>,
    pub content_type: Option<ContentType>,
    pub mht_hash: Option<Seq<u8>>,
    pub game_title: Option<Seq<char>>,
}

impl View for ConHeaderBuilder {
    type V = ConHeaderBuilderView;

    open spec fn view(&self) -> ConHeaderBuilderView {
        ConHeaderBuilderView {
            execution_info: self.execution_info,
            block_counts: self.block_counts,
            data_parts_info: self.data_parts_info,
            content_type: self.content_type,
            mht_hash: match self.mht_hash {
                Some(hash) => Some(hash@),
                None => None,
            },
            game_title: opt_view(self.game_title),
        }
    }
}

impl ConHeaderBuilderView {
    /// The header that the gathered fields make. There is one as soon as
    /// all fields but the title are there; the title may be missing.
    pub open spec fn finalize(self) -> Option<ConHeaderView> {
        match (
            self.execution_info,
            self.block_counts,
            self.data_parts_info,
            self.content_type,
            self.mht_hash,
        ) {
            (
                Some(execution_info),
                Some(block_counts),
                Some(data_parts_info),
                Some(content_type),
                Some(mht_hash),
            ) => Some(
                ConHeaderView {
                    execution_info,
                    content_type,
                    block_count: block_counts.0,
                    unallocated_block_count: block_counts.1,
                    part_count: data_parts_info.0,
                    parts_total_size: data_parts_info.1,
                    mht_hash,
                    game_title: self.game_title,
                },
            ),
            _ => None,
        }
    }
}

/// The view of a header, where there is one.
pub open spec fn header_opt_view(header: Option<ConHeader>) -> Option<ConHeaderView> {
    match header {
        Some(h) => Some(h@),
        None => None,
    }
}

impl ConHeaderBuilder {
    /// Nothing gathered yet.
    pub fn new() -> (b: ConHeaderBuilder)
        ensures
            b@ == (ConHeaderBuilderView {
                execution_info: None,
                block_counts: None,
                data_parts_info: None,
                content_type: None,
                mht_hash: None,
                game_title: None,
            }),
    {
        ConHeaderBuilder {
            execution_info: None,
            block_counts: None,
            data_parts_info: None,
            content_type: None,
            mht_hash: None,
            game_title: None,
        }
    }

    /// Sets the title's identity.
    pub fn with_execution_info(self, info: &TitleExecutionInfo) -> (b: ConHeaderBuilder)
        ensures
            b@ == (ConHeaderBuilderView { execution_info: Some(*info), ..self@ }),
    {
        ConHeaderBuilder { execution_info: Some(*info), ..self }
    }

    /// Sets the number of payload blocks and of blocks set aside.
    pub fn with_block_counts(self, allocated: u32, unallocated: u16) -> (b: ConHeaderBuilder)
        ensures
            b@ == (ConHeaderBuilderView { block_counts: Some((allocated, unallocated)), ..self@ }),
    {
        ConHeaderBuilder { block_counts: Some((allocated, unallocated)), ..self }
    }

    /// Sets the number of part files and their size taken together.
    pub fn with_data_parts_info(self, part_count: u32, parts_total_size: u64) -> (b:
        ConHeaderBuilder)
        ensures
            b@ == (ConHeaderBuilderView {
                data_parts_info: Some((part_count, parts_total_size)),
                ..self@
            }),
    {
        ConHeaderBuilder { data_parts_info: Some((part_count, parts_total_size)), ..self }
    }

    /// Sets the kind of disc.
    pub fn with_content_type(self, content_type: ContentType) -> (b: ConHeaderBuilder)
        ensures
            b@ == (ConHeaderBuilderView { content_type: Some(content_type), ..self@ }),
    {
        ConHeaderBuilder { content_type: Some(content_type), ..self }
    }

    /// Sets the digest that binds the parts.
    pub fn with_mht_hash(self, mht_hash: &[u8; 20]) -> (b: ConHeaderBuilder)
        ensures
            b@ == (ConHeaderBuilderView { mht_hash: Some(mht_hash@), ..self@ }),
    {
        ConHeaderBuilder { mht_hash: Some(*mht_hash), ..self }
    }

    /// Sets the title to show.
    pub fn with_game_title(self, game_title: &str) -> (b: ConHeaderBuilder)
        ensures
            b@ == (ConHeaderBuilderView { game_title: Some(game_title@), ..self@ }),
    {
        ConHeaderBuilder { game_title: Some(String::from_str(game_title)), ..self }
    }

    /// The header that the gathered fields make, if none but the title is
    /// missing.
    pub fn finalize(self) -> (header: Option<ConHeader>)
        ensures
            header_opt_view(header) == self@.finalize(),
    {
        match (
            self.execution_info,
            self.block_counts,
            self.data_parts_info,
            self.content_type,
            self.mht_hash,
        ) {
            (
                Some(execution_info),
                Some(block_counts),
                Some(data_parts_info),
                Some(content_type),
                Some(mht_hash),
            ) => Some(
                ConHeader {
                    execution_info,
                    content_type,
                    block_count: block_counts.0,
                    unallocated_block_count: block_counts.1,
                    part_count: data_parts_info.0,
                    parts_total_size: data_parts_info.1,
                    mht_hash,
                    game_title: self.game_title,
                },
            ),
            _ => None,
        }
    }
}

/// The header of a package of the given geometry whose last part file has
/// `last_part_size` bytes. There is none for an empty payload, nor where a
/// count or the total size does not fit its field.
pub open spec fn spec_header_for(
    title: TitleInfo,
    geometry: Geometry,
    last_part_size: u64,
    mht_hash: Seq<u8>,
    game_title: Option<Seq<char>>,
) -> Result<ConHeaderView, ImageError> {
    if geometry.part_count == 0 {
        Err(ImageError::EmptyPayload)
    } else if geometry.block_count > u32::MAX || geometry.part_count > u32::MAX
        || spec_parts_total_size(geometry.part_count as int, last_part_size as int) > u64::MAX {
        Err(ImageError::PayloadTooLarge)
    } else {
        Ok(
            ConHeaderView {
                execution_info: title.execution_info,
                content_type: title.content_type,
                block_count: geometry.block_count as u32,
                unallocated_block_count: 0,
                part_count: geometry.part_count as u32,
                parts_total_size: spec_parts_total_size(
                    geometry.part_count as int,
                    last_part_size as int,
                ) as u64,
                mht_hash,
                game_title,
            },
        )
    }
}

/// The view of a header or of the reason why there is none.
pub open spec fn header_result_view(r: Result<ConHeader, ImageError>) -> Result<
    ConHeaderView,
    ImageError,
> {
    match r {
        Ok(h) => Ok(h@),
        Err(e) => Err(e),
    }
}

/// Puts together the header of a package.
pub fn header_for(
    title: &TitleInfo,
    geometry: &Geometry,
    last_part_size: u64,
    mht_hash: [u8; 20],
    game_title: Option<String>,
) -> (r: Result<ConHeader, ImageError>)
    ensures
        header_result_view(r) == spec_header_for(
            *title,
            *geometry,
            last_part_size,
            mht_hash@,
            opt_view(game_title),
        ),
{
    if geometry.part_count == 0 {
        return Err(ImageError::EmptyPayload);
    }
    if geometry.block_count > 0xffff_ffff || geometry.part_count > 0xffff_ffff {
        return Err(ImageError::PayloadTooLarge);
    }
    match parts_total_size(geometry.part_count, last_part_size) {
        None => Err(ImageError::PayloadTooLarge),
        Some(total) => {
            let mut builder = ConHeaderBuilder::new().with_execution_info(
                &title.execution_info,
            ).with_block_counts(geometry.block_count as u32, 0).with_data_parts_info(
                geometry.part_count as u32,
                total,
            ).with_content_type(title.content_type).with_mht_hash(&mht_hash);
            if let Some(shown) = game_title {
                builder = builder.with_game_title(shown.as_str());
            }
            match builder.finalize() {
                Some(header) => Ok(header),
                None => Err(ImageError::PayloadTooLarge),
            }
        },
    }
}

} // verus!
