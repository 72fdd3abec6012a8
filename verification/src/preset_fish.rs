//! The fixed preset pool of AI-authored entries.
//!
//! The first few AI spawns of every room are drawn from this pool,
//! load-balanced by a global usage counter held in the cache store. The
//! image payload of each preset entry lives with the asset store outside the
//! engine; the pool here carries identity, name and description.

use vstd::prelude::*;

verus! {

/// The number of preset entries.
pub const PRESET_FISH_COUNT: usize = 9;

/// One preset entry of the pool.
#[derive(Debug)]
pub struct PresetFish {
    pub id: u8,
    pub name: String,
    pub description: String,
}

/// The size of the preset pool.
pub fn preset_fish_count() -> (r: usize)
    ensures
        r == PRESET_FISH_COUNT,
{
    PRESET_FISH_COUNT
}

/// The preset entry with the given id: one exists for every id below the
/// pool size, with a non-empty name.
pub fn get_preset_fish(id: u8) -> (r: Option<PresetFish>)
    ensures
        r is Some <==> (id as int) < PRESET_FISH_COUNT,
        r matches Some(f) ==> f.id == id && f.name@.len() > 0,
{
    let fish = match id {
        0 => PresetFish {
            id,
            name: "稀疏红鱼".to_owned(),
            description: "稀疏填充的抽象红色鱼".to_owned(),
        },
        1 => PresetFish {
            id,
            name: "稀疏绿鱼".to_owned(),
            description: "稀疏填充的抽象绿色鱼".to_owned(),
        },
        2 => PresetFish {
            id,
            name: "彩色抽象鱼".to_owned(),
            description: "随机配色的抽象鱼儿".to_owned(),
        },
        3 => PresetFish {
            id,
            name: "橙色极简鱼".to_owned(),
            description: "单笔画风格的橙色小鱼".to_owned(),
        },
        4 => PresetFish {
            id,
            name: "红色极简鱼".to_owned(),
            description: "单笔画风格的红色小鱼".to_owned(),
        },
        5 => PresetFish {
            id,
            name: "深红极简鱼".to_owned(),
            description: "单笔画风格的深红小鱼".to_owned(),
        },
        6 => PresetFish {
            id,
            name: "绿色极简鱼".to_owned(),
            description: "单笔画风格的绿色小鱼".to_owned(),
        },
        7 => PresetFish {
            id,
            name: "蓝色极简鱼".to_owned(),
            description: "单笔画风格的蓝色小鱼".to_owned(),
        },
        8 => PresetFish {
            id,
            name: "黑色极简鱼".to_owned(),
            description: "单笔画风格的黑色小鱼".to_owned(),
        },
        _ => {
            return None;
        },
    };
    proof {
        reveal_strlit("稀疏红鱼");
        reveal_strlit("稀疏绿鱼");
        reveal_strlit("彩色抽象鱼");
        reveal_strlit("橙色极简鱼");
        reveal_strlit("红色极简鱼");
        reveal_strlit("深红极简鱼");
        reveal_strlit("绿色极简鱼");
        reveal_strlit("蓝色极简鱼");
        reveal_strlit("黑色极简鱼");
    }
    Some(fish)
}

} // verus!
