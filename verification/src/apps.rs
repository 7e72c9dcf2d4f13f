//! Names of stock apps.

use vstd::prelude::*;

use crate::locator::{listed, strs};
use crate::reply::opt_str;
use crate::text::{trim, trimmed};

verus! {

/// One app: the names that it goes by, and its bundle identifier.
pub struct AppView {
    pub names: Seq<Seq<char>>,
    pub bundle: Seq<char>,
}

/// The stock apps that can be launched by name.
pub open spec fn stock_apps() -> Seq<AppView> {
    seq![
        AppView { names: seq!["设置"@, "设定"@, "Settings"@, "settings"@], bundle: "com.apple.Preferences"@ },
        AppView { names: seq!["照片"@, "Photos"@, "photos"@], bundle: "com.apple.mobileslideshow"@ },
        AppView { names: seq!["相机"@, "Camera"@, "camera"@], bundle: "com.apple.camera"@ },
        AppView { names: seq!["时钟"@, "Clock"@, "clock"@], bundle: "com.apple.mobiletimer"@ },
        AppView { names: seq!["备忘录"@, "Notes"@, "notes"@], bundle: "com.apple.mobilenotes"@ },
        AppView { names: seq!["提醒事项"@, "Reminders"@, "reminders"@], bundle: "com.apple.reminders"@ },
        AppView { names: seq!["日历"@, "Calendar"@, "calendar"@], bundle: "com.apple.mobilecal"@ },
        AppView { names: seq!["Safari"@, "safari"@, "浏览器"@], bundle: "com.apple.mobilesafari"@ },
        AppView { names: seq!["信息"@, "Messages"@, "messages"@], bundle: "com.apple.MobileSMS"@ },
        AppView { names: seq!["电话"@, "Phone"@, "phone"@], bundle: "com.apple.mobilephone"@ },
        AppView { names: seq!["邮件"@, "Mail"@, "mail"@], bundle: "com.apple.mobilemail"@ },
        AppView { names: seq!["地图"@, "Maps"@, "maps"@], bundle: "com.apple.Maps"@ },
        AppView { names: seq!["App Store"@, "app store"@, "appstore"@, "应用商店"@], bundle: "com.apple.AppStore"@ },
        AppView { names: seq!["钱包"@, "Wallet"@, "wallet"@], bundle: "com.apple.Passbook"@ },
        AppView { names: seq!["健康"@, "Health"@, "health"@], bundle: "com.apple.Health"@ },
        AppView { names: seq!["文件"@, "Files"@, "files"@], bundle: "com.apple.DocumentsApp"@ },
        AppView { names: seq!["快捷指令"@, "Shortcuts"@, "shortcuts"@], bundle: "com.apple.shortcuts"@ },
        AppView { names: seq!["音乐"@, "Music"@, "music"@], bundle: "com.apple.Music"@ },
        AppView { names: seq!["App资源库"@, "Find My"@, "查找"@], bundle: "com.apple.findmy"@ },
    ]
}

/// The bundle of the first app that goes by `name`.
pub open spec fn bundle_named(apps: Seq<AppView>, name: Seq<char>) -> Option<Seq<char>>
    decreases apps.len(),
{
    if apps.len() == 0 {
        None
    } else if apps[0].names.contains(name) {
        Some(apps[0].bundle)
    } else {
        bundle_named(apps.skip(1), name)
    }
}

fn stock_app_table() -> (table: Vec<(Vec<&'static str>, &'static str)>)
    ensures
        table@.len() == stock_apps().len(),
        forall|i: int|
            0 <= i < table@.len() ==> strs((#[trigger] table@[i]).0@) == stock_apps()[i].names
                && table@[i].1@ == stock_apps()[i].bundle,
{
    let table: Vec<(Vec<&'static str>, &'static str)> = vec![
        (vec!["设置", "设定", "Settings", "settings"], "com.apple.Preferences"),
        (vec!["照片", "Photos", "photos"], "com.apple.mobileslideshow"),
        (vec!["相机", "Camera", "camera"], "com.apple.camera"),
        (vec!["时钟", "Clock", "clock"], "com.apple.mobiletimer"),
        (vec!["备忘录", "Notes", "notes"], "com.apple.mobilenotes"),
        (vec!["提醒事项", "Reminders", "reminders"], "com.apple.reminders"),
        (vec!["日历", "Calendar", "calendar"], "com.apple.mobilecal"),
        (vec!["Safari", "safari", "浏览器"], "com.apple.mobilesafari"),
        (vec!["信息", "Messages", "messages"], "com.apple.MobileSMS"),
        (vec!["电话", "Phone", "phone"], "com.apple.mobilephone"),
        (vec!["邮件", "Mail", "mail"], "com.apple.mobilemail"),
        (vec!["地图", "Maps", "maps"], "com.apple.Maps"),
        (vec!["App Store", "app store", "appstore", "应用商店"], "com.apple.AppStore"),
        (vec!["钱包", "Wallet", "wallet"], "com.apple.Passbook"),
        (vec!["健康", "Health", "health"], "com.apple.Health"),
        (vec!["文件", "Files", "files"], "com.apple.DocumentsApp"),
        (vec!["快捷指令", "Shortcuts", "shortcuts"], "com.apple.shortcuts"),
        (vec!["音乐", "Music", "music"], "com.apple.Music"),
        (vec!["App资源库", "Find My", "查找"], "com.apple.findmy"),
    ];
    proof {
        assert forall|i: int| 0 <= i < table@.len() implies strs((#[trigger] table@[i]).0@)
            == stock_apps()[i].names by {
            assert(strs(table@[i].0@) =~= stock_apps()[i].names);
        }
    }
    table
}

/// The bundle identifier of a stock app, by its Chinese or English name. White
/// space around the name does not matter.
pub fn system_app_bundle(name: &str) -> (bundle: Option<&'static str>)
    ensures
        opt_str(bundle) == bundle_named(stock_apps(), trimmed(name@)),
{
    let wanted = trim(name);
    let table = stock_app_table();
    let mut i: usize = 0;
    assert(stock_apps().skip(0) =~= stock_apps());
    while i < table.len()
        invariant
            i <= table@.len(),
            table@.len() == stock_apps().len(),
            forall|k: int|
                0 <= k < table@.len() ==> strs((#[trigger] table@[k]).0@) == stock_apps()[k].names
                    && table@[k].1@ == stock_apps()[k].bundle,
            wanted@ == trimmed(name@),
            bundle_named(stock_apps(), wanted@) == bundle_named(
                stock_apps().skip(i as int),
                wanted@,
            ),
        decreases table@.len() - i,
    {
        assert(stock_apps().skip(i as int)[0] == stock_apps()[i as int]);
        assert(strs(table@[i as int].0@) == stock_apps()[i as int].names);
        if listed(&table[i].0, wanted) {
            return Some(table[i].1);
        }
        assert(stock_apps().skip(i as int).skip(1) =~= stock_apps().skip(i + 1));
        i += 1;
    }
    None
}

/// The lengths and some letters of words, which tell them apart.
proof fn lemma_app_words()
    ensures
        "设置"@.len() == 2,
        "设置"@[0] == '设',
        "设置"@[1] == '置',
        "设定"@.len() == 2,
        "设定"@[0] == '设',
        "设定"@[1] == '定',
        "照片"@.len() == 2,
        "照片"@[0] == '照',
        "照片"@[1] == '片',
        "相机"@.len() == 2,
        "相机"@[0] == '相',
        "相机"@[1] == '机',
        "时钟"@.len() == 2,
        "时钟"@[0] == '时',
        "时钟"@[1] == '钟',
        "日历"@.len() == 2,
        "日历"@[0] == '日',
        "日历"@[1] == '历',
        "信息"@.len() == 2,
        "信息"@[0] == '信',
        "信息"@[1] == '息',
        "电话"@.len() == 2,
        "电话"@[0] == '电',
        "电话"@[1] == '话',
        "邮件"@.len() == 2,
        "邮件"@[0] == '邮',
        "邮件"@[1] == '件',
        "地图"@.len() == 2,
        "地图"@[0] == '地',
        "地图"@[1] == '图',
        "钱包"@.len() == 2,
        "钱包"@[0] == '钱',
        "钱包"@[1] == '包',
        "健康"@.len() == 2,
        "健康"@[0] == '健',
        "健康"@[1] == '康',
        "文件"@.len() == 2,
        "文件"@[0] == '文',
        "文件"@[1] == '件',
        "音乐"@.len() == 2,
        "音乐"@[0] == '音',
        "音乐"@[1] == '乐',
        "查找"@.len() == 2,
        "查找"@[0] == '查',
        "查找"@[1] == '找',
        "备忘录"@.len() == 3,
        "备忘录"@[0] == '备',
        "浏览器"@.len() == 3,
        "浏览器"@[0] == '浏',
        "提醒事项"@.len() == 4,
        "提醒事项"@[0] == '提',
        "提醒事项"@[2] == '事',
        "Mail"@.len() == 4,
        "Mail"@[0] == 'M',
        "Mail"@[2] == 'i',
        "mail"@.len() == 4,
        "mail"@[0] == 'm',
        "mail"@[2] == 'i',
        "Maps"@.len() == 4,
        "Maps"@[0] == 'M',
        "Maps"@[2] == 'p',
        "maps"@.len() == 4,
        "maps"@[0] == 'm',
        "maps"@[2] == 'p',
        "应用商店"@.len() == 4,
        "应用商店"@[0] == '应',
        "应用商店"@[2] == '商',
        "快捷指令"@.len() == 4,
        "快捷指令"@[0] == '快',
        "快捷指令"@[2] == '指',
        "Clock"@.len() == 5,
        "Clock"@[0] == 'C',
        "clock"@.len() == 5,
        "clock"@[0] == 'c',
        "Notes"@.len() == 5,
        "Notes"@[0] == 'N',
        "notes"@.len() == 5,
        "notes"@[0] == 'n',
        "Phone"@.len() == 5,
        "Phone"@[0] == 'P',
        "phone"@.len() == 5,
        "phone"@[0] == 'p',
        "Files"@.len() == 5,
        "Files"@[0] == 'F',
        "files"@.len() == 5,
        "files"@[0] == 'f',
        "Music"@.len() == 5,
        "Music"@[0] == 'M',
        "music"@.len() == 5,
        "music"@[0] == 'm',
        "Photos"@.len() == 6,
        "Photos"@[0] == 'P',
        "photos"@.len() == 6,
        "photos"@[0] == 'p',
        "Camera"@.len() == 6,
        "Camera"@[0] == 'C',
        "camera"@.len() == 6,
        "camera"@[0] == 'c',
        "Safari"@.len() == 6,
        "Safari"@[0] == 'S',
        "safari"@.len() == 6,
        "safari"@[0] == 's',
        "Wallet"@.len() == 6,
        "Wallet"@[0] == 'W',
        "wallet"@.len() == 6,
        "wallet"@[0] == 'w',
        "Health"@.len() == 6,
        "Health"@[0] == 'H',
        "health"@.len() == 6,
        "health"@[0] == 'h',
        "App资源库"@.len() == 6,
        "App资源库"@[0] == 'A',
        "Find My"@.len() == 7,
        "Settings"@.len() == 8,
        "Settings"@[0] == 'S',
        "settings"@.len() == 8,
        "settings"@[0] == 's',
        "Calendar"@.len() == 8,
        "Calendar"@[0] == 'C',
        "calendar"@.len() == 8,
        "calendar"@[0] == 'c',
        "Messages"@.len() == 8,
        "Messages"@[0] == 'M',
        "messages"@.len() == 8,
        "messages"@[0] == 'm',
        "appstore"@.len() == 8,
        "appstore"@[0] == 'a',
        "Reminders"@.len() == 9,
        "Reminders"@[0] == 'R',
        "reminders"@.len() == 9,
        "reminders"@[0] == 'r',
        "App Store"@.len() == 9,
        "App Store"@[0] == 'A',
        "app store"@.len() == 9,
        "app store"@[0] == 'a',
        "Shortcuts"@.len() == 9,
        "Shortcuts"@[0] == 'S',
        "shortcuts"@.len() == 9,
        "shortcuts"@[0] == 's',
{
    reveal_strlit("设置");
    reveal_strlit("设定");
    reveal_strlit("照片");
    reveal_strlit("相机");
    reveal_strlit("时钟");
    reveal_strlit("日历");
    reveal_strlit("信息");
    reveal_strlit("电话");
    reveal_strlit("邮件");
    reveal_strlit("地图");
    reveal_strlit("钱包");
    reveal_strlit("健康");
    reveal_strlit("文件");
    reveal_strlit("音乐");
    reveal_strlit("查找");
    reveal_strlit("备忘录");
    reveal_strlit("浏览器");
    reveal_strlit("提醒事项");
    reveal_strlit("Mail");
    reveal_strlit("mail");
    reveal_strlit("Maps");
    reveal_strlit("maps");
    reveal_strlit("应用商店");
    reveal_strlit("快捷指令");
    reveal_strlit("Clock");
    reveal_strlit("clock");
    reveal_strlit("Notes");
    reveal_strlit("notes");
    reveal_strlit("Phone");
    reveal_strlit("phone");
    reveal_strlit("Files");
    reveal_strlit("files");
    reveal_strlit("Music");
    reveal_strlit("music");
    reveal_strlit("Photos");
    reveal_strlit("photos");
    reveal_strlit("Camera");
    reveal_strlit("camera");
    reveal_strlit("Safari");
    reveal_strlit("safari");
    reveal_strlit("Wallet");
    reveal_strlit("wallet");
    reveal_strlit("Health");
    reveal_strlit("health");
    reveal_strlit("App资源库");
    reveal_strlit("Find My");
    reveal_strlit("Settings");
    reveal_strlit("settings");
    reveal_strlit("Calendar");
    reveal_strlit("calendar");
    reveal_strlit("Messages");
    reveal_strlit("messages");
    reveal_strlit("appstore");
    reveal_strlit("Reminders");
    reveal_strlit("reminders");
    reveal_strlit("App Store");
    reveal_strlit("app store");
    reveal_strlit("Shortcuts");
    reveal_strlit("shortcuts");
}

proof fn lemma_next(apps: Seq<AppView>, name: Seq<char>)
    requires
        apps.len() > 0,
    ensures
        apps[0].names.contains(name) ==> bundle_named(apps, name) == Some(apps[0].bundle),
        !apps[0].names.contains(name) ==> bundle_named(apps, name) == bundle_named(
            apps.skip(1),
            name,
        ),
{
}

/// Each stock app is known by its names, in the languages that they are written
/// in, and by no other.
pub proof fn law_a_stock_app_is_known_by_its_names(name: Seq<char>)
    ensures
        name == "设置"@ || name == "设定"@ || name == "Settings"@ || name == "settings"@ ==> bundle_named(stock_apps(), name) == Some(
            "com.apple.Preferences"@,
        ),
        name == "照片"@ || name == "Photos"@ || name == "photos"@ ==> bundle_named(stock_apps(), name) == Some(
            "com.apple.mobileslideshow"@,
        ),
        name == "相机"@ || name == "Camera"@ || name == "camera"@ ==> bundle_named(stock_apps(), name) == Some(
            "com.apple.camera"@,
        ),
        name == "时钟"@ || name == "Clock"@ || name == "clock"@ ==> bundle_named(stock_apps(), name) == Some(
            "com.apple.mobiletimer"@,
        ),
        name == "备忘录"@ || name == "Notes"@ || name == "notes"@ ==> bundle_named(stock_apps(), name) == Some(
            "com.apple.mobilenotes"@,
        ),
        name == "提醒事项"@ || name == "Reminders"@ || name == "reminders"@ ==> bundle_named(stock_apps(), name) == Some(
            "com.apple.reminders"@,
        ),
        name == "日历"@ || name == "Calendar"@ || name == "calendar"@ ==> bundle_named(stock_apps(), name) == Some(
            "com.apple.mobilecal"@,
        ),
        name == "Safari"@ || name == "safari"@ || name == "浏览器"@ ==> bundle_named(stock_apps(), name) == Some(
            "com.apple.mobilesafari"@,
        ),
        name == "信息"@ || name == "Messages"@ || name == "messages"@ ==> bundle_named(stock_apps(), name) == Some(
            "com.apple.MobileSMS"@,
        ),
        name == "电话"@ || name == "Phone"@ || name == "phone"@ ==> bundle_named(stock_apps(), name) == Some(
            "com.apple.mobilephone"@,
        ),
        name == "邮件"@ || name == "Mail"@ || name == "mail"@ ==> bundle_named(stock_apps(), name) == Some(
            "com.apple.mobilemail"@,
        ),
        name == "地图"@ || name == "Maps"@ || name == "maps"@ ==> bundle_named(stock_apps(), name) == Some(
            "com.apple.Maps"@,
        ),
        name == "App Store"@ || name == "app store"@ || name == "appstore"@ || name == "应用商店"@ ==> bundle_named(stock_apps(), name) == Some(
            "com.apple.AppStore"@,
        ),
        name == "钱包"@ || name == "Wallet"@ || name == "wallet"@ ==> bundle_named(stock_apps(), name) == Some(
            "com.apple.Passbook"@,
        ),
        name == "健康"@ || name == "Health"@ || name == "health"@ ==> bundle_named(stock_apps(), name) == Some(
            "com.apple.Health"@,
        ),
        name == "文件"@ || name == "Files"@ || name == "files"@ ==> bundle_named(stock_apps(), name) == Some(
            "com.apple.DocumentsApp"@,
        ),
        name == "快捷指令"@ || name == "Shortcuts"@ || name == "shortcuts"@ ==> bundle_named(stock_apps(), name) == Some(
            "com.apple.shortcuts"@,
        ),
        name == "音乐"@ || name == "Music"@ || name == "music"@ ==> bundle_named(stock_apps(), name) == Some(
            "com.apple.Music"@,
        ),
        name == "App资源库"@ || name == "Find My"@ || name == "查找"@ ==> bundle_named(stock_apps(), name) == Some(
            "com.apple.findmy"@,
        ),
        name != "设置"@ && name != "设定"@ && name != "Settings"@ && name != "settings"@ && name != "照片"@ && name != "Photos"@ && name != "photos"@ && name != "相机"@ && name != "Camera"@ && name != "camera"@ && name != "时钟"@ && name != "Clock"@ && name != "clock"@ && name != "备忘录"@ && name != "Notes"@ && name != "notes"@ && name != "提醒事项"@ && name != "Reminders"@ && name != "reminders"@ && name != "日历"@ && name != "Calendar"@ && name != "calendar"@ && name != "Safari"@ && name != "safari"@ && name != "浏览器"@ && name != "信息"@ && name != "Messages"@ && name != "messages"@ && name != "电话"@ && name != "Phone"@ && name != "phone"@ && name != "邮件"@ && name != "Mail"@ && name != "mail"@ && name != "地图"@ && name != "Maps"@ && name != "maps"@ && name != "App Store"@ && name != "app store"@ && name != "appstore"@ && name != "应用商店"@ && name != "钱包"@ && name != "Wallet"@ && name != "wallet"@ && name != "健康"@ && name != "Health"@ && name != "health"@ && name != "文件"@ && name != "Files"@ && name != "files"@ && name != "快捷指令"@ && name != "Shortcuts"@ && name != "shortcuts"@ && name != "音乐"@ && name != "Music"@ && name != "music"@ && name != "App资源库"@ && name != "Find My"@ && name != "查找"@
            ==> bundle_named(stock_apps(), name) is None,
{
    lemma_app_words();
    let apps = stock_apps();
    assert(apps[0].names.contains(name) <==> name == "设置"@ || name == "设定"@ || name == "Settings"@ || name == "settings"@) by {
        let n = apps[0].names;
        assert(n[0] == "设置"@ && n[1] == "设定"@ && n[2] == "Settings"@ && n[3] == "settings"@);
    }
    assert(apps[1].names.contains(name) <==> name == "照片"@ || name == "Photos"@ || name == "photos"@) by {
        let n = apps[1].names;
        assert(n[0] == "照片"@ && n[1] == "Photos"@ && n[2] == "photos"@);
    }
    assert(apps[2].names.contains(name) <==> name == "相机"@ || name == "Camera"@ || name == "camera"@) by {
        let n = apps[2].names;
        assert(n[0] == "相机"@ && n[1] == "Camera"@ && n[2] == "camera"@);
    }
    assert(apps[3].names.contains(name) <==> name == "时钟"@ || name == "Clock"@ || name == "clock"@) by {
        let n = apps[3].names;
        assert(n[0] == "时钟"@ && n[1] == "Clock"@ && n[2] == "clock"@);
    }
    assert(apps[4].names.contains(name) <==> name == "备忘录"@ || name == "Notes"@ || name == "notes"@) by {
        let n = apps[4].names;
        assert(n[0] == "备忘录"@ && n[1] == "Notes"@ && n[2] == "notes"@);
    }
    assert(apps[5].names.contains(name) <==> name == "提醒事项"@ || name == "Reminders"@ || name == "reminders"@) by {
        let n = apps[5].names;
        assert(n[0] == "提醒事项"@ && n[1] == "Reminders"@ && n[2] == "reminders"@);
    }
    assert(apps[6].names.contains(name) <==> name == "日历"@ || name == "Calendar"@ || name == "calendar"@) by {
        let n = apps[6].names;
        assert(n[0] == "日历"@ && n[1] == "Calendar"@ && n[2] == "calendar"@);
    }
    assert(apps[7].names.contains(name) <==> name == "Safari"@ || name == "safari"@ || name == "浏览器"@) by {
        let n = apps[7].names;
        assert(n[0] == "Safari"@ && n[1] == "safari"@ && n[2] == "浏览器"@);
    }
    assert(apps[8].names.contains(name) <==> name == "信息"@ || name == "Messages"@ || name == "messages"@) by {
        let n = apps[8].names;
        assert(n[0] == "信息"@ && n[1] == "Messages"@ && n[2] == "messages"@);
    }
    assert(apps[9].names.contains(name) <==> name == "电话"@ || name == "Phone"@ || name == "phone"@) by {
        let n = apps[9].names;
        assert(n[0] == "电话"@ && n[1] == "Phone"@ && n[2] == "phone"@);
    }
    assert(apps[10].names.contains(name) <==> name == "邮件"@ || name == "Mail"@ || name == "mail"@) by {
        let n = apps[10].names;
        assert(n[0] == "邮件"@ && n[1] == "Mail"@ && n[2] == "mail"@);
    }
    assert(apps[11].names.contains(name) <==> name == "地图"@ || name == "Maps"@ || name == "maps"@) by {
        let n = apps[11].names;
        assert(n[0] == "地图"@ && n[1] == "Maps"@ && n[2] == "maps"@);
    }
    assert(apps[12].names.contains(name) <==> name == "App Store"@ || name == "app store"@ || name == "appstore"@ || name == "应用商店"@) by {
        let n = apps[12].names;
        assert(n[0] == "App Store"@ && n[1] == "app store"@ && n[2] == "appstore"@ && n[3] == "应用商店"@);
    }
    assert(apps[13].names.contains(name) <==> name == "钱包"@ || name == "Wallet"@ || name == "wallet"@) by {
        let n = apps[13].names;
        assert(n[0] == "钱包"@ && n[1] == "Wallet"@ && n[2] == "wallet"@);
    }
    assert(apps[14].names.contains(name) <==> name == "健康"@ || name == "Health"@ || name == "health"@) by {
        let n = apps[14].names;
        assert(n[0] == "健康"@ && n[1] == "Health"@ && n[2] == "health"@);
    }
    assert(apps[15].names.contains(name) <==> name == "文件"@ || name == "Files"@ || name == "files"@) by {
        let n = apps[15].names;
        assert(n[0] == "文件"@ && n[1] == "Files"@ && n[2] == "files"@);
    }
    assert(apps[16].names.contains(name) <==> name == "快捷指令"@ || name == "Shortcuts"@ || name == "shortcuts"@) by {
        let n = apps[16].names;
        assert(n[0] == "快捷指令"@ && n[1] == "Shortcuts"@ && n[2] == "shortcuts"@);
    }
    assert(apps[17].names.contains(name) <==> name == "音乐"@ || name == "Music"@ || name == "music"@) by {
        let n = apps[17].names;
        assert(n[0] == "音乐"@ && n[1] == "Music"@ && n[2] == "music"@);
    }
    assert(apps[18].names.contains(name) <==> name == "App资源库"@ || name == "Find My"@ || name == "查找"@) by {
        let n = apps[18].names;
        assert(n[0] == "App资源库"@ && n[1] == "Find My"@ && n[2] == "查找"@);
    }
    assert(apps.skip(0) =~= apps);
    lemma_next(apps.skip(0), name);
    assert(apps.skip(0).skip(1) =~= apps.skip(1));
    lemma_next(apps.skip(1), name);
    assert(apps.skip(1).skip(1) =~= apps.skip(2));
    lemma_next(apps.skip(2), name);
    assert(apps.skip(2).skip(1) =~= apps.skip(3));
    lemma_next(apps.skip(3), name);
    assert(apps.skip(3).skip(1) =~= apps.skip(4));
    lemma_next(apps.skip(4), name);
    assert(apps.skip(4).skip(1) =~= apps.skip(5));
    lemma_next(apps.skip(5), name);
    assert(apps.skip(5).skip(1) =~= apps.skip(6));
    lemma_next(apps.skip(6), name);
    assert(apps.skip(6).skip(1) =~= apps.skip(7));
    lemma_next(apps.skip(7), name);
    assert(apps.skip(7).skip(1) =~= apps.skip(8));
    lemma_next(apps.skip(8), name);
    assert(apps.skip(8).skip(1) =~= apps.skip(9));
    lemma_next(apps.skip(9), name);
    assert(apps.skip(9).skip(1) =~= apps.skip(10));
    lemma_next(apps.skip(10), name);
    assert(apps.skip(10).skip(1) =~= apps.skip(11));
    lemma_next(apps.skip(11), name);
    assert(apps.skip(11).skip(1) =~= apps.skip(12));
    lemma_next(apps.skip(12), name);
    assert(apps.skip(12).skip(1) =~= apps.skip(13));
    lemma_next(apps.skip(13), name);
    assert(apps.skip(13).skip(1) =~= apps.skip(14));
    lemma_next(apps.skip(14), name);
    assert(apps.skip(14).skip(1) =~= apps.skip(15));
    lemma_next(apps.skip(15), name);
    assert(apps.skip(15).skip(1) =~= apps.skip(16));
    lemma_next(apps.skip(16), name);
    assert(apps.skip(16).skip(1) =~= apps.skip(17));
    lemma_next(apps.skip(17), name);
    assert(apps.skip(17).skip(1) =~= apps.skip(18));
    lemma_next(apps.skip(18), name);
    assert(apps.skip(18).skip(1) =~= apps.skip(19));
    assert(apps.skip(19) =~= Seq::empty());
}

} // verus!
