//! Catalogue of well-known applications (Windows executables and macOS
//! bundle ids) with their display names, and the two lookups the profile
//! editor uses: by identifier and by part of the name, both ignoring case.

use vstd::prelude::*;
use crate::text::{
    all_ascii, ascii_lower, ascii_lower_char, chars_contain, chars_eq, chars_of, has_infix, str_lower,
    to_lowercase,
};

verus! {

/// A known application: the identifier profiles match on, the name shown
/// to the user and an optional icon file.
#[derive(Clone, Copy, Debug)]
pub struct AppEntry {
    pub exe: &'static str,
    pub display_name: &'static str,
    pub icon_hint: Option<&'static str>,
}

pub open spec fn entry(exe: &'static str, display_name: &'static str, icon_hint: Option<&'static str>) -> AppEntry {
    AppEntry { exe, display_name, icon_hint }
}

/// The catalogue, Windows applications first.
pub open spec fn spec_catalog() -> Seq<AppEntry> {
    seq![
        entry("msedge.exe", "Microsoft Edge", None),
        entry("chrome.exe", "Google Chrome", Some("chrom.png")),
        entry("firefox.exe", "Firefox", None),
        entry("iexplore.exe", "Internet Explorer", None),
        entry("opera.exe", "Opera", None),
        entry("brave.exe", "Brave", None),
        entry("vivaldi.exe", "Vivaldi", None),
        entry("Code.exe", "Visual Studio Code", Some("VSCODE.png")),
        entry("Cursor.exe", "Cursor", None),
        entry("devenv.exe", "Visual Studio", None),
        entry("idea64.exe", "IntelliJ IDEA", None),
        entry("webstorm64.exe", "WebStorm", None),
        entry("pycharm64.exe", "PyCharm", None),
        entry("clion64.exe", "CLion", None),
        entry("rider64.exe", "Rider", None),
        entry("goland64.exe", "GoLand", None),
        entry("sublime_text.exe", "Sublime Text", None),
        entry("atom.exe", "Atom", None),
        entry("notepad++.exe", "Notepad++", None),
        entry("notepad.exe", "Notepad", None),
        entry("wordpad.exe", "WordPad", None),
        entry("WINWORD.EXE", "Microsoft Word", None),
        entry("EXCEL.EXE", "Microsoft Excel", None),
        entry("POWERPNT.EXE", "Microsoft PowerPoint", None),
        entry("OUTLOOK.EXE", "Microsoft Outlook", None),
        entry("ONENOTE.EXE", "Microsoft OneNote", None),
        entry("MSPUB.EXE", "Microsoft Publisher", None),
        entry("MSACCESS.EXE", "Microsoft Access", None),
        entry("Adobe Premiere Pro.exe", "Adobe Premiere Pro", None),
        entry("AfterFX.exe", "Adobe After Effects", None),
        entry("Photoshop.exe", "Adobe Photoshop", None),
        entry("Illustrator.exe", "Adobe Illustrator", None),
        entry("InDesign.exe", "Adobe InDesign", None),
        entry("Lightroom.exe", "Adobe Lightroom", None),
        entry("Acrobat.exe", "Adobe Acrobat", None),
        entry("slack.exe", "Slack", None),
        entry("Discord.exe", "Discord", None),
        entry("teams.exe", "Microsoft Teams", None),
        entry("zoom.exe", "Zoom", None),
        entry("Skype.exe", "Skype", None),
        entry("signal.exe", "Signal", None),
        entry("Spotify.exe", "Spotify", None),
        entry("vlc.exe", "VLC Media Player", Some("VLC.png")),
        entry("Microsoft.Media.Player.exe", "Windows Media Player", Some("media.webp")),
        entry("wmplayer.exe", "Windows Media Player", None),
        entry("mpv.exe", "mpv", None),
        entry("mpc-hc64.exe", "MPC-HC", None),
        entry("iTunes.exe", "iTunes", None),
        entry("WindowsTerminal.exe", "Windows Terminal", None),
        entry("wt.exe", "Windows Terminal", None),
        entry("cmd.exe", "Command Prompt", None),
        entry("powershell.exe", "Windows PowerShell", None),
        entry("pwsh.exe", "PowerShell", None),
        entry("wsl.exe", "WSL", None),
        entry("explorer.exe", "File Explorer", None),
        entry("GitHubDesktop.exe", "GitHub Desktop", None),
        entry("gitkraken.exe", "GitKraken", None),
        entry("sourcetree.exe", "Sourcetree", None),
        entry("docker.exe", "Docker Desktop", None),
        entry("Postman.exe", "Postman", None),
        entry("insomnia.exe", "Insomnia", None),
        entry("dbeaver.exe", "DBeaver", None),
        entry("TablePlus.exe", "TablePlus", None),
        entry("HeidiSQL.exe", "HeidiSQL", None),
        entry("blender.exe", "Blender", None),
        entry("AutoCAD.exe", "AutoCAD", None),
        entry("SOLIDWORKS.exe", "SOLIDWORKS", None),
        entry("FreeCAD.exe", "FreeCAD", None),
        entry("steam.exe", "Steam", None),
        entry("EpicGamesLauncher.exe", "Epic Games Launcher", None),
        entry("Battle.net.exe", "Battle.net", None),
        entry("7zFM.exe", "7-Zip", None),
        entry("winrar.exe", "WinRAR", None),
        entry("calc.exe", "Calculator", None),
        entry("mspaint.exe", "Paint", None),
        entry("taskmgr.exe", "Task Manager", None),
        entry("com.apple.Safari", "Safari", None),
        entry("com.google.Chrome", "Google Chrome", Some("chrom.png")),
        entry("org.mozilla.firefox", "Firefox", None),
        entry("com.microsoft.edgemac", "Microsoft Edge", None),
        entry("com.brave.Browser", "Brave", None),
        entry("com.operasoftware.Opera", "Opera", None),
        entry("com.vivaldi.Vivaldi", "Vivaldi", None),
        entry("com.apple.WebKit.WebContent", "WebKit WebContent", None),
        entry("com.microsoft.VSCode", "Visual Studio Code", Some("VSCODE.png")),
        entry("com.todesktop.230313mzl4w4u92", "Cursor", None),
        entry("com.jetbrains.intellij", "IntelliJ IDEA", None),
        entry("com.jetbrains.webstorm", "WebStorm", None),
        entry("com.jetbrains.pycharm", "PyCharm", None),
        entry("com.sublimetext.4", "Sublime Text", None),
        entry("com.github.atom", "Atom", None),
        entry("com.apple.TextEdit", "TextEdit", None),
        entry("com.barebones.bbedit", "BBEdit", None),
        entry("com.microsoft.Word", "Microsoft Word", None),
        entry("com.microsoft.Excel", "Microsoft Excel", None),
        entry("com.microsoft.Powerpoint", "Microsoft PowerPoint", None),
        entry("com.microsoft.Outlook", "Microsoft Outlook", None),
        entry("com.microsoft.onenote.mac", "Microsoft OneNote", None),
        entry("com.apple.iWork.Pages", "Pages", None),
        entry("com.apple.iWork.Numbers", "Numbers", None),
        entry("com.apple.iWork.Keynote", "Keynote", None),
        entry("com.apple.Notes", "Notes", None),
        entry("com.culturedcode.ThingsMac", "Things 3", None),
        entry("com.omnigroup.OmniFocus3", "OmniFocus", None),
        entry("md.obsidian", "Obsidian", None),
        entry("com.notion.id", "Notion", None),
        entry("com.adobe.AdobePremierePro", "Adobe Premiere Pro", None),
        entry("com.adobe.AfterEffects", "Adobe After Effects", None),
        entry("com.adobe.Photoshop", "Adobe Photoshop", None),
        entry("com.adobe.illustrator", "Adobe Illustrator", None),
        entry("com.adobe.InDesign", "Adobe InDesign", None),
        entry("com.adobe.Lightroom", "Adobe Lightroom", None),
        entry("com.adobe.Reader", "Adobe Acrobat Reader", None),
        entry("com.adobe.Acrobat.Pro", "Adobe Acrobat Pro", None),
        entry("com.bohemiancoding.sketch3", "Sketch", None),
        entry("com.figma.Desktop", "Figma", None),
        entry("com.affinity.designer2", "Affinity Designer", None),
        entry("com.affinity.photo2", "Affinity Photo", None),
        entry("com.tinyspeck.slackmacgap", "Slack", None),
        entry("com.hnc.Discord", "Discord", None),
        entry("com.microsoft.teams2", "Microsoft Teams", None),
        entry("us.zoom.xos", "Zoom", None),
        entry("com.skype.skype", "Skype", None),
        entry("org.whispersystems.signal-desktop", "Signal", None),
        entry("ru.keepcoder.Telegram", "Telegram", None),
        entry("com.apple.MobileSMS", "Messages", None),
        entry("com.apple.FaceTime", "FaceTime", None),
        entry("com.apple.mail", "Mail", None),
        entry("com.spotify.client", "Spotify", None),
        entry("org.videolan.vlc", "VLC Media Player", Some("VLC.png")),
        entry("com.apple.Music", "Music", None),
        entry("com.apple.TV", "TV", None),
        entry("com.apple.QuickTimePlayerX", "QuickTime Player", None),
        entry("io.mpv", "mpv", None),
        entry("org.gimp.gimp-2.10", "GIMP", None),
        entry("com.apple.Terminal", "Terminal", None),
        entry("com.googlecode.iterm2", "iTerm2", None),
        entry("com.github.wez.wezterm", "WezTerm", None),
        entry("co.zeit.hyper", "Hyper", None),
        entry("com.mitchellh.ghostty", "Ghostty", None),
        entry("com.apple.finder", "Finder", None),
        entry("com.binarynights.ForkLift3", "ForkLift", None),
        entry("com.panic.Transmit5", "Transmit", None),
        entry("com.github.GitHubClient", "GitHub Desktop", None),
        entry("com.axosoft.gitkraken", "GitKraken", None),
        entry("com.atlassian.sourcetree", "Sourcetree", None),
        entry("com.docker.docker", "Docker Desktop", None),
        entry("com.postmanlabs.mac", "Postman", None),
        entry("com.insomnia.app", "Insomnia", None),
        entry("com.tinyapp.TablePlus", "TablePlus", None),
        entry("com.dbeaver.product", "DBeaver", None),
        entry("org.blender", "Blender", None),
        entry("com.autodesk.AutoCAD", "AutoCAD", None),
        entry("com.valvesoftware.steam", "Steam", None),
        entry("com.epicgames.EpicGamesLauncher", "Epic Games Launcher", None),
        entry("com.apple.systempreferences", "System Settings", None),
        entry("com.apple.ActivityMonitor", "Activity Monitor", None),
        entry("com.apple.calculator", "Calculator", None),
        entry("com.apple.Preview", "Preview", None),
        entry("com.apple.ScreenSaver.Engine", "Screen Saver", None),
        entry("com.apple.screencaptureui", "Screenshot", None),
        entry("org.7-zip.7-Zip", "7-Zip", None),
        entry("com.aone.keka", "Keka", None),
        entry("com.macpaw.CleanMyMac4", "CleanMyMac", None),
        entry("com.apple.Automator", "Automator", None),
        entry("com.apple.ScriptEditor2", "Script Editor", None),
    ]
}

/// All catalogue entries.
pub fn app_catalog() -> (r: Vec<AppEntry>)
    ensures
        r@ == spec_catalog(),
{
    let v = vec![
        AppEntry { exe: "msedge.exe", display_name: "Microsoft Edge", icon_hint: None },
        AppEntry { exe: "chrome.exe", display_name: "Google Chrome", icon_hint: Some("chrom.png") },
        AppEntry { exe: "firefox.exe", display_name: "Firefox", icon_hint: None },
        AppEntry { exe: "iexplore.exe", display_name: "Internet Explorer", icon_hint: None },
        AppEntry { exe: "opera.exe", display_name: "Opera", icon_hint: None },
        AppEntry { exe: "brave.exe", display_name: "Brave", icon_hint: None },
        AppEntry { exe: "vivaldi.exe", display_name: "Vivaldi", icon_hint: None },
        AppEntry { exe: "Code.exe", display_name: "Visual Studio Code", icon_hint: Some("VSCODE.png") },
        AppEntry { exe: "Cursor.exe", display_name: "Cursor", icon_hint: None },
        AppEntry { exe: "devenv.exe", display_name: "Visual Studio", icon_hint: None },
        AppEntry { exe: "idea64.exe", display_name: "IntelliJ IDEA", icon_hint: None },
        AppEntry { exe: "webstorm64.exe", display_name: "WebStorm", icon_hint: None },
        AppEntry { exe: "pycharm64.exe", display_name: "PyCharm", icon_hint: None },
        AppEntry { exe: "clion64.exe", display_name: "CLion", icon_hint: None },
        AppEntry { exe: "rider64.exe", display_name: "Rider", icon_hint: None },
        AppEntry { exe: "goland64.exe", display_name: "GoLand", icon_hint: None },
        AppEntry { exe: "sublime_text.exe", display_name: "Sublime Text", icon_hint: None },
        AppEntry { exe: "atom.exe", display_name: "Atom", icon_hint: None },
        AppEntry { exe: "notepad++.exe", display_name: "Notepad++", icon_hint: None },
        AppEntry { exe: "notepad.exe", display_name: "Notepad", icon_hint: None },
        AppEntry { exe: "wordpad.exe", display_name: "WordPad", icon_hint: None },
        AppEntry { exe: "WINWORD.EXE", display_name: "Microsoft Word", icon_hint: None },
        AppEntry { exe: "EXCEL.EXE", display_name: "Microsoft Excel", icon_hint: None },
        AppEntry { exe: "POWERPNT.EXE", display_name: "Microsoft PowerPoint", icon_hint: None },
        AppEntry { exe: "OUTLOOK.EXE", display_name: "Microsoft Outlook", icon_hint: None },
        AppEntry { exe: "ONENOTE.EXE", display_name: "Microsoft OneNote", icon_hint: None },
        AppEntry { exe: "MSPUB.EXE", display_name: "Microsoft Publisher", icon_hint: None },
        AppEntry { exe: "MSACCESS.EXE", display_name: "Microsoft Access", icon_hint: None },
        AppEntry { exe: "Adobe Premiere Pro.exe", display_name: "Adobe Premiere Pro", icon_hint: None },
        AppEntry { exe: "AfterFX.exe", display_name: "Adobe After Effects", icon_hint: None },
        AppEntry { exe: "Photoshop.exe", display_name: "Adobe Photoshop", icon_hint: None },
        AppEntry { exe: "Illustrator.exe", display_name: "Adobe Illustrator", icon_hint: None },
        AppEntry { exe: "InDesign.exe", display_name: "Adobe InDesign", icon_hint: None },
        AppEntry { exe: "Lightroom.exe", display_name: "Adobe Lightroom", icon_hint: None },
        AppEntry { exe: "Acrobat.exe", display_name: "Adobe Acrobat", icon_hint: None },
        AppEntry { exe: "slack.exe", display_name: "Slack", icon_hint: None },
        AppEntry { exe: "Discord.exe", display_name: "Discord", icon_hint: None },
        AppEntry { exe: "teams.exe", display_name: "Microsoft Teams", icon_hint: None },
        AppEntry { exe: "zoom.exe", display_name: "Zoom", icon_hint: None },
        AppEntry { exe: "Skype.exe", display_name: "Skype", icon_hint: None },
        AppEntry { exe: "signal.exe", display_name: "Signal", icon_hint: None },
        AppEntry { exe: "Spotify.exe", display_name: "Spotify", icon_hint: None },
        AppEntry { exe: "vlc.exe", display_name: "VLC Media Player", icon_hint: Some("VLC.png") },
        AppEntry { exe: "Microsoft.Media.Player.exe", display_name: "Windows Media Player", icon_hint: Some("media.webp") },
        AppEntry { exe: "wmplayer.exe", display_name: "Windows Media Player", icon_hint: None },
        AppEntry { exe: "mpv.exe", display_name: "mpv", icon_hint: None },
        AppEntry { exe: "mpc-hc64.exe", display_name: "MPC-HC", icon_hint: None },
        AppEntry { exe: "iTunes.exe", display_name: "iTunes", icon_hint: None },
        AppEntry { exe: "WindowsTerminal.exe", display_name: "Windows Terminal", icon_hint: None },
        AppEntry { exe: "wt.exe", display_name: "Windows Terminal", icon_hint: None },
        AppEntry { exe: "cmd.exe", display_name: "Command Prompt", icon_hint: None },
        AppEntry { exe: "powershell.exe", display_name: "Windows PowerShell", icon_hint: None },
        AppEntry { exe: "pwsh.exe", display_name: "PowerShell", icon_hint: None },
        AppEntry { exe: "wsl.exe", display_name: "WSL", icon_hint: None },
        AppEntry { exe: "explorer.exe", display_name: "File Explorer", icon_hint: None },
        AppEntry { exe: "GitHubDesktop.exe", display_name: "GitHub Desktop", icon_hint: None },
        AppEntry { exe: "gitkraken.exe", display_name: "GitKraken", icon_hint: None },
        AppEntry { exe: "sourcetree.exe", display_name: "Sourcetree", icon_hint: None },
        AppEntry { exe: "docker.exe", display_name: "Docker Desktop", icon_hint: None },
        AppEntry { exe: "Postman.exe", display_name: "Postman", icon_hint: None },
        AppEntry { exe: "insomnia.exe", display_name: "Insomnia", icon_hint: None },
        AppEntry { exe: "dbeaver.exe", display_name: "DBeaver", icon_hint: None },
        AppEntry { exe: "TablePlus.exe", display_name: "TablePlus", icon_hint: None },
        AppEntry { exe: "HeidiSQL.exe", display_name: "HeidiSQL", icon_hint: None },
        AppEntry { exe: "blender.exe", display_name: "Blender", icon_hint: None },
        AppEntry { exe: "AutoCAD.exe", display_name: "AutoCAD", icon_hint: None },
        AppEntry { exe: "SOLIDWORKS.exe", display_name: "SOLIDWORKS", icon_hint: None },
        AppEntry { exe: "FreeCAD.exe", display_name: "FreeCAD", icon_hint: None },
        AppEntry { exe: "steam.exe", display_name: "Steam", icon_hint: None },
        AppEntry { exe: "EpicGamesLauncher.exe", display_name: "Epic Games Launcher", icon_hint: None },
        AppEntry { exe: "Battle.net.exe", display_name: "Battle.net", icon_hint: None },
        AppEntry { exe: "7zFM.exe", display_name: "7-Zip", icon_hint: None },
        AppEntry { exe: "winrar.exe", display_name: "WinRAR", icon_hint: None },
        AppEntry { exe: "calc.exe", display_name: "Calculator", icon_hint: None },
        AppEntry { exe: "mspaint.exe", display_name: "Paint", icon_hint: None },
        AppEntry { exe: "taskmgr.exe", display_name: "Task Manager", icon_hint: None },
        AppEntry { exe: "com.apple.Safari", display_name: "Safari", icon_hint: None },
        AppEntry { exe: "com.google.Chrome", display_name: "Google Chrome", icon_hint: Some("chrom.png") },
        AppEntry { exe: "org.mozilla.firefox", display_name: "Firefox", icon_hint: None },
        AppEntry { exe: "com.microsoft.edgemac", display_name: "Microsoft Edge", icon_hint: None },
        AppEntry { exe: "com.brave.Browser", display_name: "Brave", icon_hint: None },
        AppEntry { exe: "com.operasoftware.Opera", display_name: "Opera", icon_hint: None },
        AppEntry { exe: "com.vivaldi.Vivaldi", display_name: "Vivaldi", icon_hint: None },
        AppEntry { exe: "com.apple.WebKit.WebContent", display_name: "WebKit WebContent", icon_hint: None },
        AppEntry { exe: "com.microsoft.VSCode", display_name: "Visual Studio Code", icon_hint: Some("VSCODE.png") },
        AppEntry { exe: "com.todesktop.230313mzl4w4u92", display_name: "Cursor", icon_hint: None },
        AppEntry { exe: "com.jetbrains.intellij", display_name: "IntelliJ IDEA", icon_hint: None },
        AppEntry { exe: "com.jetbrains.webstorm", display_name: "WebStorm", icon_hint: None },
        AppEntry { exe: "com.jetbrains.pycharm", display_name: "PyCharm", icon_hint: None },
        AppEntry { exe: "com.sublimetext.4", display_name: "Sublime Text", icon_hint: None },
        AppEntry { exe: "com.github.atom", display_name: "Atom", icon_hint: None },
        AppEntry { exe: "com.apple.TextEdit", display_name: "TextEdit", icon_hint: None },
        AppEntry { exe: "com.barebones.bbedit", display_name: "BBEdit", icon_hint: None },
        AppEntry { exe: "com.microsoft.Word", display_name: "Microsoft Word", icon_hint: None },
        AppEntry { exe: "com.microsoft.Excel", display_name: "Microsoft Excel", icon_hint: None },
        AppEntry { exe: "com.microsoft.Powerpoint", display_name: "Microsoft PowerPoint", icon_hint: None },
        AppEntry { exe: "com.microsoft.Outlook", display_name: "Microsoft Outlook", icon_hint: None },
        AppEntry { exe: "com.microsoft.onenote.mac", display_name: "Microsoft OneNote", icon_hint: None },
        AppEntry { exe: "com.apple.iWork.Pages", display_name: "Pages", icon_hint: None },
        AppEntry { exe: "com.apple.iWork.Numbers", display_name: "Numbers", icon_hint: None },
        AppEntry { exe: "com.apple.iWork.Keynote", display_name: "Keynote", icon_hint: None },
        AppEntry { exe: "com.apple.Notes", display_name: "Notes", icon_hint: None },
        AppEntry { exe: "com.culturedcode.ThingsMac", display_name: "Things 3", icon_hint: None },
        AppEntry { exe: "com.omnigroup.OmniFocus3", display_name: "OmniFocus", icon_hint: None },
        AppEntry { exe: "md.obsidian", display_name: "Obsidian", icon_hint: None },
        AppEntry { exe: "com.notion.id", display_name: "Notion", icon_hint: None },
        AppEntry { exe: "com.adobe.AdobePremierePro", display_name: "Adobe Premiere Pro", icon_hint: None },
        AppEntry { exe: "com.adobe.AfterEffects", display_name: "Adobe After Effects", icon_hint: None },
        AppEntry { exe: "com.adobe.Photoshop", display_name: "Adobe Photoshop", icon_hint: None },
        AppEntry { exe: "com.adobe.illustrator", display_name: "Adobe Illustrator", icon_hint: None },
        AppEntry { exe: "com.adobe.InDesign", display_name: "Adobe InDesign", icon_hint: None },
        AppEntry { exe: "com.adobe.Lightroom", display_name: "Adobe Lightroom", icon_hint: None },
        AppEntry { exe: "com.adobe.Reader", display_name: "Adobe Acrobat Reader", icon_hint: None },
        AppEntry { exe: "com.adobe.Acrobat.Pro", display_name: "Adobe Acrobat Pro", icon_hint: None },
        AppEntry { exe: "com.bohemiancoding.sketch3", display_name: "Sketch", icon_hint: None },
        AppEntry { exe: "com.figma.Desktop", display_name: "Figma", icon_hint: None },
        AppEntry { exe: "com.affinity.designer2", display_name: "Affinity Designer", icon_hint: None },
        AppEntry { exe: "com.affinity.photo2", display_name: "Affinity Photo", icon_hint: None },
        AppEntry { exe: "com.tinyspeck.slackmacgap", display_name: "Slack", icon_hint: None },
        AppEntry { exe: "com.hnc.Discord", display_name: "Discord", icon_hint: None },
        AppEntry { exe: "com.microsoft.teams2", display_name: "Microsoft Teams", icon_hint: None },
        AppEntry { exe: "us.zoom.xos", display_name: "Zoom", icon_hint: None },
        AppEntry { exe: "com.skype.skype", display_name: "Skype", icon_hint: None },
        AppEntry { exe: "org.whispersystems.signal-desktop", display_name: "Signal", icon_hint: None },
        AppEntry { exe: "ru.keepcoder.Telegram", display_name: "Telegram", icon_hint: None },
        AppEntry { exe: "com.apple.MobileSMS", display_name: "Messages", icon_hint: None },
        AppEntry { exe: "com.apple.FaceTime", display_name: "FaceTime", icon_hint: None },
        AppEntry { exe: "com.apple.mail", display_name: "Mail", icon_hint: None },
        AppEntry { exe: "com.spotify.client", display_name: "Spotify", icon_hint: None },
        AppEntry { exe: "org.videolan.vlc", display_name: "VLC Media Player", icon_hint: Some("VLC.png") },
        AppEntry { exe: "com.apple.Music", display_name: "Music", icon_hint: None },
        AppEntry { exe: "com.apple.TV", display_name: "TV", icon_hint: None },
        AppEntry { exe: "com.apple.QuickTimePlayerX", display_name: "QuickTime Player", icon_hint: None },
        AppEntry { exe: "io.mpv", display_name: "mpv", icon_hint: None },
        AppEntry { exe: "org.gimp.gimp-2.10", display_name: "GIMP", icon_hint: None },
        AppEntry { exe: "com.apple.Terminal", display_name: "Terminal", icon_hint: None },
        AppEntry { exe: "com.googlecode.iterm2", display_name: "iTerm2", icon_hint: None },
        AppEntry { exe: "com.github.wez.wezterm", display_name: "WezTerm", icon_hint: None },
        AppEntry { exe: "co.zeit.hyper", display_name: "Hyper", icon_hint: None },
        AppEntry { exe: "com.mitchellh.ghostty", display_name: "Ghostty", icon_hint: None },
        AppEntry { exe: "com.apple.finder", display_name: "Finder", icon_hint: None },
        AppEntry { exe: "com.binarynights.ForkLift3", display_name: "ForkLift", icon_hint: None },
        AppEntry { exe: "com.panic.Transmit5", display_name: "Transmit", icon_hint: None },
        AppEntry { exe: "com.github.GitHubClient", display_name: "GitHub Desktop", icon_hint: None },
        AppEntry { exe: "com.axosoft.gitkraken", display_name: "GitKraken", icon_hint: None },
        AppEntry { exe: "com.atlassian.sourcetree", display_name: "Sourcetree", icon_hint: None },
        AppEntry { exe: "com.docker.docker", display_name: "Docker Desktop", icon_hint: None },
        AppEntry { exe: "com.postmanlabs.mac", display_name: "Postman", icon_hint: None },
        AppEntry { exe: "com.insomnia.app", display_name: "Insomnia", icon_hint: None },
        AppEntry { exe: "com.tinyapp.TablePlus", display_name: "TablePlus", icon_hint: None },
        AppEntry { exe: "com.dbeaver.product", display_name: "DBeaver", icon_hint: None },
        AppEntry { exe: "org.blender", display_name: "Blender", icon_hint: None },
        AppEntry { exe: "com.autodesk.AutoCAD", display_name: "AutoCAD", icon_hint: None },
        AppEntry { exe: "com.valvesoftware.steam", display_name: "Steam", icon_hint: None },
        AppEntry { exe: "com.epicgames.EpicGamesLauncher", display_name: "Epic Games Launcher", icon_hint: None },
        AppEntry { exe: "com.apple.systempreferences", display_name: "System Settings", icon_hint: None },
        AppEntry { exe: "com.apple.ActivityMonitor", display_name: "Activity Monitor", icon_hint: None },
        AppEntry { exe: "com.apple.calculator", display_name: "Calculator", icon_hint: None },
        AppEntry { exe: "com.apple.Preview", display_name: "Preview", icon_hint: None },
        AppEntry { exe: "com.apple.ScreenSaver.Engine", display_name: "Screen Saver", icon_hint: None },
        AppEntry { exe: "com.apple.screencaptureui", display_name: "Screenshot", icon_hint: None },
        AppEntry { exe: "org.7-zip.7-Zip", display_name: "7-Zip", icon_hint: None },
        AppEntry { exe: "com.aone.keka", display_name: "Keka", icon_hint: None },
        AppEntry { exe: "com.macpaw.CleanMyMac4", display_name: "CleanMyMac", icon_hint: None },
        AppEntry { exe: "com.apple.Automator", display_name: "Automator", icon_hint: None },
        AppEntry { exe: "com.apple.ScriptEditor2", display_name: "Script Editor", icon_hint: None },
    ];
    assert(v@ =~= spec_catalog());
    v
}

/// The first entry whose identifier equals `exe_lower` once lower-cased.
pub open spec fn first_with_exe(s: Seq<AppEntry>, exe_lower: Seq<char>) -> Option<AppEntry>
    decreases s.len(),
{
    if s.len() == 0 {
        None
    } else if str_lower(s[0].exe@) == exe_lower {
        Some(s[0])
    } else {
        first_with_exe(s.drop_first(), exe_lower)
    }
}

/// Finds an application by identifier, ignoring case.
pub fn find_app_by_exe(exe: &str) -> (r: Option<AppEntry>)
    ensures
        r == first_with_exe(spec_catalog(), str_lower(exe@)),
        all_ascii(exe@) ==> r == first_with_exe(spec_catalog(), ascii_lower(exe@)),
{
    let lower_s = to_lowercase(exe);
    let lower = chars_of(lower_s.as_str());
    let all = app_catalog();
    let ghost s = all@;
    let mut i: usize = 0;
    assert(s.subrange(0, s.len() as int) =~= s);
    while i < all.len()
        invariant
            s == all@,
            s == spec_catalog(),
            lower@ == str_lower(exe@),
            all_ascii(exe@) ==> lower@ == ascii_lower(exe@),
            i <= all.len(),
            first_with_exe(s, lower@) == first_with_exe(s.subrange(i as int, s.len() as int), lower@),
        decreases all.len() - i,
    {
        assert(s.subrange(i as int, s.len() as int).drop_first() =~= s.subrange(i + 1, s.len() as int));
        let e = all[i];
        let el = to_lowercase(e.exe);
        let elc = chars_of(el.as_str());
        if chars_eq(&elc, &lower) {
            return Some(e);
        }
        i += 1;
    }
    None
}

/// Lookup by identifier compares lower-cased forms: a found entry is in
/// the catalogue and its lower-cased identifier is the lower-cased query,
/// every entry before it differs, and nothing is found exactly when no
/// entry's lower-cased identifier is the lower-cased query.
pub proof fn lemma_find_by_exe_matches(s: Seq<AppEntry>, exe_lower: Seq<char>)
    ensures
        match first_with_exe(s, exe_lower) {
            Some(e) => exists|i: int|
                #![trigger s[i]]
                0 <= i < s.len() && s[i] == e && str_lower(e.exe@) == exe_lower && forall|j: int|
                    0 <= j < i ==> str_lower((#[trigger] s[j]).exe@) != exe_lower,
            None => forall|i: int| 0 <= i < s.len() ==> str_lower((#[trigger] s[i]).exe@) != exe_lower,
        },
    decreases s.len(),
{
    if s.len() > 0 {
        lemma_find_by_exe_matches(s.drop_first(), exe_lower);
        if str_lower(s[0].exe@) != exe_lower {
            match first_with_exe(s.drop_first(), exe_lower) {
                Some(e) => {
                    let k = choose|k: int|
                        #![trigger s.drop_first()[k]]
                        0 <= k < s.drop_first().len() && s.drop_first()[k] == e && str_lower(e.exe@)
                            == exe_lower && forall|j: int|
                            0 <= j < k ==> str_lower((#[trigger] s.drop_first()[j]).exe@)
                                != exe_lower;
                    assert(s[k + 1] == e);
                    assert forall|j: int| 0 <= j < k + 1 implies str_lower((#[trigger] s[j]).exe@)
                        != exe_lower by {
                        if j > 0 {
                            assert(s[j] == s.drop_first()[j - 1]);
                        }
                    }
                },
                None => {
                    assert forall|i: int| 0 <= i < s.len() implies str_lower((#[trigger] s[i]).exe@)
                        != exe_lower by {
                        if i > 0 {
                            assert(s[i] == s.drop_first()[i - 1]);
                        }
                    }
                },
            }
        } else {
            assert(s[0] == s[0]);
        }
    }
}

/// Lookup by an ASCII identifier ignores case: the identifier's lower
/// case is ASCII and lower-casing it again changes nothing, so the
/// identifier and its lower case find the same entry (by the contract of
/// `find_app_by_exe`, both find the first entry whose lower-cased
/// identifier is `ascii_lower(exe)`).
pub proof fn lemma_find_by_exe_ascii_case(exe: Seq<char>)
    requires
        all_ascii(exe),
    ensures
        all_ascii(ascii_lower(exe)),
        ascii_lower(ascii_lower(exe)) == ascii_lower(exe),
        first_with_exe(spec_catalog(), ascii_lower(ascii_lower(exe))) == first_with_exe(
            spec_catalog(),
            ascii_lower(exe),
        ),
{
    let l = ascii_lower(exe);
    assert forall|i: int| 0 <= i < l.len() implies (#[trigger] l[i] as u32) < 0x80 && ascii_lower_char(
        l[i],
    ) == l[i] by {
        let c = exe[i];
        assert((c as u32) < 0x80);
        if 'A' <= c <= 'Z' {
            assert(((c as u32) + 32) as char as u32 == (c as u32) + 32);
        }
    }
    assert(ascii_lower(l) =~= l);
}

/// Lookup by identifier ignores case: two identifiers with the same
/// lower-cased form find the same entry (the contract of
/// `find_app_by_exe` speaks of the query only through `str_lower`).
pub proof fn lemma_find_by_exe_same_lower(a: Seq<char>, b: Seq<char>)
    requires
        str_lower(a) == str_lower(b),
    ensures
        first_with_exe(spec_catalog(), str_lower(a)) == first_with_exe(spec_catalog(), str_lower(b)),
{
}

/// The entries whose display name contains `query_lower` once lower-cased,
/// in catalogue order.
pub open spec fn with_name_part(s: Seq<AppEntry>, query_lower: Seq<char>) -> Seq<AppEntry>
    decreases s.len(),
{
    if s.len() == 0 {
        Seq::empty()
    } else {
        let init = with_name_part(s.drop_last(), query_lower);
        if has_infix(str_lower(s.last().display_name@), query_lower) {
            init.push(s.last())
        } else {
            init
        }
    }
}

/// Finds the applications whose display name contains `query`, ignoring
/// case; an empty query finds them all.
pub fn find_apps_by_name(query: &str) -> (r: Vec<AppEntry>)
    ensures
        r@ == with_name_part(spec_catalog(), str_lower(query@)),
{
    let lower_s = to_lowercase(query);
    let lower = chars_of(lower_s.as_str());
    let all = app_catalog();
    let ghost s = all@;
    let mut out: Vec<AppEntry> = Vec::new();
    let mut i: usize = 0;
    while i < all.len()
        invariant
            s == all@,
            lower@ == str_lower(query@),
            i <= all.len(),
            out@ == with_name_part(s.take(i as int), lower@),
        decreases all.len() - i,
    {
        assert(s.take(i + 1).drop_last() =~= s.take(i as int));
        let e = all[i];
        let nl = to_lowercase(e.display_name);
        let nlc = chars_of(nl.as_str());
        if chars_contain(&nlc, &lower) {
            out.push(e);
        }
        i += 1;
    }
    assert(s.take(all.len() as int) =~= s);
    out
}

/// Every entry found by name contains the query in its lower-cased name.
pub proof fn lemma_found_by_name_match(s: Seq<AppEntry>, query_lower: Seq<char>)
    ensures
        forall|i: int|
            0 <= i < with_name_part(s, query_lower).len() ==> has_infix(
                str_lower((#[trigger] with_name_part(s, query_lower)[i]).display_name@),
                query_lower,
            ),
        with_name_part(s, query_lower).len() <= s.len(),
    decreases s.len(),
{
    if s.len() > 0 {
        lemma_found_by_name_match(s.drop_last(), query_lower);
    }
}

/// The empty query is found in every name, so it finds every entry.
pub proof fn lemma_empty_query_finds_all(s: Seq<AppEntry>)
    ensures
        with_name_part(s, Seq::empty()) == s,
    decreases s.len(),
{
    let e = Seq::<char>::empty();
    if s.len() > 0 {
        lemma_empty_query_finds_all(s.drop_last());
        let n = str_lower(s.last().display_name@);
        assert(n.subrange(0, 0 + e.len() as int) =~= e);
        assert(has_infix(n, e));
        assert(s.drop_last().push(s.last()) =~= s);
    } else {
        assert(s =~= Seq::<AppEntry>::empty());
    }
}

} // verus!
