//! The front end's bilingual text table.  Every key has a fixed text in
//! each supported language; the lookup is a total function, so no key
//! can ever come back untranslated.

use vstd::prelude::*;

verus! {

/// The languages the front end can display.
#[derive(Clone, Copy, Debug, PartialEq, Eq, Hash, Structural)]
pub enum Language {
    English,
    Chinese,
}

impl Default for Language {
    /// English is the default language.
    fn default() -> (r: Self)
        ensures
            r == Language::English,
    {
        Language::English
    }
}

/// Every piece of text the front end displays, by name.
#[derive(Clone, Copy, Debug, PartialEq, Eq, Hash, Structural)]
pub enum TextKey {
    MenuNew,
    MenuOpen,
    MenuOpenRecent,
    MenuSave,
    MenuSaveAs,
    MenuFind,
    MenuImport,
    MenuExportAll,
    MenuOptions,
    MenuClose,
    DragDropHint,
    NoRecentFiles,
    FitTexture,
    ToUppercase,
    ToLowercase,
    MapFile,
    Entity,
    Clear,
    Options,
    AutoPickupWads,
    ExportTextures,
    UppercaseTexture,
    OnlyConvertMarked,
    CenterModel,
    Flatshade,
    ReverseNormal,
    Run,
    SMD,
    Texture,
    Add,
    ConvertTexture,
    ConvertSMD,
    CompileMDL,
    File,
    Folder,
    Steps,
    Decompile,
    VTF,
    BMP,
    SmdQc,
    GoldSrcCompile,
    Force,
    AddSuffix,
    IgnoreConverted,
    Cancel,
    Reset,
    TexturePerFace,
    SkyboxSize,
    OutputName,
    ImageExtensions,
    Tiling,
    Transparent,
    ChangeFileName,
    AddFiles,
    AddFolders,
    ListOfItems,
    Idle,
    Running,
    Done,
    OK,
    UVClampHint,
    TexturePerFaceHint,
    SkyboxSizeHint,
    ConvertTextureHint,
    FlatshadeHint,
    FileExtensionsHint,
    TilingHint,
    TransparentHint,
    ChangeFileNameHint,
    RemoveItemHint,
    AutoPickupWadsHint,
    ExportTexturesHint,
    UppercaseTextureHint,
    OnlyConvertMarkedHint,
    CenterModelHint,
    FlatshadeModelHint,
    ReverseNormalHint,
    ConvertTextureBlbhHint,
    ConvertSmdHint,
    CompileMdlHint,
    ForceHint,
    AddSuffixHint,
    IgnoreConvertedHint,
    FlatshadeTextureHint,
    VTFHint,
    BMPHint,
    SmdQcHint,
    GoldSrcCompileHint,
    ConvertSMDHint,
    CompileMDLHint,
    SplitModelTitle,
    SplitModelHint,
    LoopWaveTitle,
    LoopWaveHint,
    LoopCheckboxHint,
    ResMakeTitle,
    ResMakeHint,
    WadCheckHint,
    DefaultResHint,
    IgnoreMissingHint,
    CreateLinkedWadHint,
}

/// The table's english column.
pub open spec fn english_text_of(key: TextKey) -> Seq<char> {
    match key {
        TextKey::MenuNew => "New"@,
        TextKey::MenuOpen => "Open"@,
        TextKey::MenuOpenRecent => "Open Recent"@,
        TextKey::MenuSave => "Save (Ctrl+S)"@,
        TextKey::MenuSaveAs => "Save As"@,
        TextKey::MenuFind => "Find (Ctrl+F)"@,
        TextKey::MenuImport => "Import"@,
        TextKey::MenuExportAll => "Export All"@,
        TextKey::MenuOptions => "Options"@,
        TextKey::MenuClose => "Close"@,
        TextKey::DragDropHint => "Drag and drop a WAD file to start.\nYou can also drag and drop a BSP file."@,
        TextKey::NoRecentFiles => "No recently opened"@,
        TextKey::FitTexture => "Fit texture"@,
        TextKey::ToUppercase => "To UPPERCASE"@,
        TextKey::ToLowercase => "To lowercase"@,
        TextKey::MapFile => "Map:"@,
        TextKey::Entity => "Entity"@,
        TextKey::Clear => "Clear"@,
        TextKey::Options => "Options:"@,
        TextKey::AutoPickupWads => "Auto pickup WADs"@,
        TextKey::ExportTextures => "Export textures"@,
        TextKey::UppercaseTexture => "Uppercase texture"@,
        TextKey::OnlyConvertMarked => "Only convert marked entity"@,
        TextKey::CenterModel => "Center the model"@,
        TextKey::Flatshade => "Flatshade"@,
        TextKey::ReverseNormal => "Reverse normal"@,
        TextKey::Run => "Run"@,
        TextKey::SMD => "SMD:"@,
        TextKey::Texture => "Texture:"@,
        TextKey::Add => "Add"@,
        TextKey::ConvertTexture => "Convert texture"@,
        TextKey::ConvertSMD => "Convert SMD"@,
        TextKey::CompileMDL => "Compile MDL"@,
        TextKey::File => "File:"@,
        TextKey::Folder => "Folder:"@,
        TextKey::Steps => "Steps:"@,
        TextKey::Decompile => "Decompile"@,
        TextKey::VTF => "VTF"@,
        TextKey::BMP => "BMP"@,
        TextKey::SmdQc => "Smd/Qc"@,
        TextKey::GoldSrcCompile => "GoldSrc Compile"@,
        TextKey::Force => "Force"@,
        TextKey::AddSuffix => "Add suffix"@,
        TextKey::IgnoreConverted => "Ignore converted"@,
        TextKey::Cancel => "Cancel"@,
        TextKey::Reset => "Reset"@,
        TextKey::TexturePerFace => "Texture per face:"@,
        TextKey::SkyboxSize => "Skybox size:"@,
        TextKey::OutputName => "Output name:"@,
        TextKey::ImageExtensions => "Image extensions"@,
        TextKey::Tiling => "Tiling"@,
        TextKey::Transparent => "Transparent"@,
        TextKey::ChangeFileName => "Change file name"@,
        TextKey::AddFiles => "Add file(s)"@,
        TextKey::AddFolders => "Add folder(s)"@,
        TextKey::ListOfItems => "List of items"@,
        TextKey::Idle => "Idle"@,
        TextKey::Running => "Running"@,
        TextKey::Done => "Done"@,
        TextKey::OK => "OK"@,
        TextKey::UVClampHint => "There is a problem with the edge where it is repeatedly filtered.\nWith this option, the polygon UV will not sample the edge by avoiding the edge.\nBy default, it will \"shrink\" the UV in by 1 pixel wherever applicable."@,
        TextKey::TexturePerFaceHint => "How many textures should each skybox face have?\nIt should be a perfect square (such as 1, 4, 9, 16, ..)\nIf a model has more than 64 textures, it will be split into smaller models"@,
        TextKey::SkyboxSizeHint => "The size of the model"@,
        TextKey::ConvertTextureHint => "Converts most image format into compliant BMP.\nProcesses textures into suitable format for other settings.\nRecommended to leave it checked."@,
        TextKey::FlatshadeHint => "Mark texture with flatshade flag.\nRecommeded to leave it checked for uniformly lit texture."@,
        TextKey::FileExtensionsHint => "Converts only textures with specified file extension(s)\nSpace seperated"@,
        TextKey::TilingHint => "The dimensions of a texture will multiply by this number."@,
        TextKey::TransparentHint => "The threshold to decide whether a texture is transparent.\nIf the dominant color of an image exceeds this threshold,\nit will be chosen as transparent mask."@,
        TextKey::ChangeFileNameHint => "Prepend \"{\" if transparent\nAppend \"_<scalar>\" if tiling"@,
        TextKey::RemoveItemHint => "Right click to remove"@,
        TextKey::AutoPickupWadsHint => "Look for WAD files from \"wad\" key in the map file or worldbrush entity"@,
        TextKey::ExportTexturesHint => "Export textures into the map file folder OR studiomdl.exe folder if converting entity"@,
        TextKey::UppercaseTextureHint => "For .map exported from .jmf/rmf, the texture used inside source map file does not match WAD file.\nThis option is to coerce every texture in this process to be upper case."@,
        TextKey::OnlyConvertMarkedHint => "Only convert brush entities {} and this would modify the original map file"@,
        TextKey::CenterModelHint => "The center of the model is the origin"@,
        TextKey::FlatshadeModelHint => "Model is flatshade"@,
        TextKey::ReverseNormalHint => "Reverses every vertex normals"@,
        TextKey::ConvertTextureBlbhHint => "Splits 4096x4096 texture into 64 smaller compliant files"@,
        TextKey::ConvertSmdHint => "Creates new SMD file that will use those new texture files accordingly"@,
        TextKey::CompileMdlHint => "Creates QC file and compiles the model with included studiomdl.exe"@,
        TextKey::ForceHint => "Continues with the process even when there is error."@,
        TextKey::AddSuffixHint => "Adds suffix \"_goldsrc\" to the name of the converted model"@,
        TextKey::IgnoreConvertedHint => "Ignores models with \"_goldsrc\" suffix"@,
        TextKey::FlatshadeTextureHint => "Textures will have flat shade flags\nRecommended to have it on so textures will be uniformly lit"@,
        TextKey::VTFHint => "Convert textures to VTF format"@,
        TextKey::BMPHint => "Convert textures to BMP format"@,
        TextKey::SmdQcHint => "Generate SMD and QC files"@,
        TextKey::GoldSrcCompileHint => "Compile model for GoldSrc engine"@,
        TextKey::ConvertSMDHint => "Creates new SMD file that will use those new texture files accordingly"@,
        TextKey::CompileMDLHint => "Creates QC file and compiles the model with included studiomdl.exe"@,
        TextKey::SplitModelTitle => "Split Model Title"@,
        TextKey::SplitModelHint => "Split Model Hint"@,
        TextKey::LoopWaveTitle => "Loop Wave Title"@,
        TextKey::LoopWaveHint => "Loop Wave Hint"@,
        TextKey::LoopCheckboxHint => "Loop Checkbox Hint"@,
        TextKey::ResMakeTitle => "ResMake Title"@,
        TextKey::ResMakeHint => "ResMake Hint"@,
        TextKey::WadCheckHint => "Wad Check Hint"@,
        TextKey::DefaultResHint => "Default Res Hint"@,
        TextKey::IgnoreMissingHint => "Ignore Missing Hint"@,
        TextKey::CreateLinkedWadHint => "Create Linked Wad Hint"@,
    }
}

/// The table's chinese column.
pub open spec fn chinese_text_of(key: TextKey) -> Seq<char> {
    match key {
        TextKey::MenuNew => "新建"@,
        TextKey::MenuOpen => "打开"@,
        TextKey::MenuOpenRecent => "最近打开"@,
        TextKey::MenuSave => "保存 (Ctrl+S)"@,
        TextKey::MenuSaveAs => "另存为"@,
        TextKey::MenuFind => "查找 (Ctrl+F)"@,
        TextKey::MenuImport => "导入"@,
        TextKey::MenuExportAll => "导出全部"@,
        TextKey::MenuOptions => "选项"@,
        TextKey::MenuClose => "关闭"@,
        TextKey::DragDropHint => "拖放一个WAD文件来开始。\n你也可以拖放一个BSP文件。"@,
        TextKey::NoRecentFiles => "没有最近打开的文件"@,
        TextKey::FitTexture => "适应纹理"@,
        TextKey::ToUppercase => "转为大写"@,
        TextKey::ToLowercase => "转为小写"@,
        TextKey::MapFile => "地图:"@,
        TextKey::Entity => "实体"@,
        TextKey::Clear => "清除"@,
        TextKey::Options => "选项:"@,
        TextKey::AutoPickupWads => "自动获取WAD"@,
        TextKey::ExportTextures => "导出纹理"@,
        TextKey::UppercaseTexture => "大写纹理"@,
        TextKey::OnlyConvertMarked => "仅转换标记的实体"@,
        TextKey::CenterModel => "居中模型"@,
        TextKey::Flatshade => "平面着色"@,
        TextKey::ReverseNormal => "反转法线"@,
        TextKey::Run => "运行"@,
        TextKey::SMD => "SMD:"@,
        TextKey::Texture => "纹理:"@,
        TextKey::Add => "添加"@,
        TextKey::ConvertTexture => "转换纹理"@,
        TextKey::ConvertSMD => "转换SMD"@,
        TextKey::CompileMDL => "编译MDL"@,
        TextKey::File => "文件:"@,
        TextKey::Folder => "文件夹:"@,
        TextKey::Steps => "步骤:"@,
        TextKey::Decompile => "反编译"@,
        TextKey::VTF => "VTF"@,
        TextKey::BMP => "BMP"@,
        TextKey::SmdQc => "Smd/Qc"@,
        TextKey::GoldSrcCompile => "GoldSrc编译"@,
        TextKey::Force => "强制"@,
        TextKey::AddSuffix => "添加后缀"@,
        TextKey::IgnoreConverted => "忽略已转换"@,
        TextKey::Cancel => "取消"@,
        TextKey::Reset => "重置"@,
        TextKey::TexturePerFace => "每面纹理数:"@,
        TextKey::SkyboxSize => "天空盒大小:"@,
        TextKey::OutputName => "输出名称:"@,
        TextKey::ImageExtensions => "图片扩展名"@,
        TextKey::Tiling => "平铺"@,
        TextKey::Transparent => "透明"@,
        TextKey::ChangeFileName => "更改文件名"@,
        TextKey::AddFiles => "添加文件"@,
        TextKey::AddFolders => "添加文件夹"@,
        TextKey::ListOfItems => "项目列表"@,
        TextKey::Idle => "空闲"@,
        TextKey::Running => "运行中"@,
        TextKey::Done => "完成"@,
        TextKey::OK => "成功"@,
        TextKey::UVClampHint => "边缘处存在重复过滤的问题。\n启用此选项后，多边形UV将通过避开边缘来避免采样边缘。\n默认情况下，它会在适用的地方将UV向内收缩1个像素。"@,
        TextKey::TexturePerFaceHint => "每个天空盒面应该有多少纹理？\n应该是一个完全平方数(如1、4、9、16等)\n如果模型有超过64个纹理，它将被分割成更小的模型"@,
        TextKey::SkyboxSizeHint => "模型的大小"@,
        TextKey::ConvertTextureHint => "将大多数图像格式转换为兼容的BMP格式。\n根据其他设置处理纹理为合适的格式。\n建议保持选中状态。"@,
        TextKey::FlatshadeHint => "为纹理标记平面着色标志。\n建议保持选中状态以获得均匀的光照纹理。"@,
        TextKey::FileExtensionsHint => "仅转换指定文件扩展名的纹理\n用空格分隔"@,
        TextKey::TilingHint => "纹理的尺寸将乘以这个数字。"@,
        TextKey::TransparentHint => "决定纹理是否透明的阈值。\n如果图像的主要颜色超过此阈值，\n它将被选为透明遮罩。"@,
        TextKey::ChangeFileNameHint => "如果透明则在前面添加 \"{\"\n如果平铺则在后面添加 \"_<倍数>\""@,
        TextKey::RemoveItemHint => "右键点击删除"@,
        TextKey::AutoPickupWadsHint => "从地图文件或世界画笔实体的\"wad\"键中查找WAD文件"@,
        TextKey::ExportTexturesHint => "将纹理导出到地图文件夹或转换实体时导出到studiomdl.exe文件夹"@,
        TextKey::UppercaseTextureHint => "对于从.jmf/rmf导出的.map文件，源地图文件中使用的纹理与WAD文件不匹配。\n此选项将在此过程中强制所有纹理为大写。"@,
        TextKey::OnlyConvertMarkedHint => "仅转换标记的画笔实体{}，这将修改原始地图文件"@,
        TextKey::CenterModelHint => "模型的中心在原点"@,
        TextKey::FlatshadeModelHint => "模型使用平面着色"@,
        TextKey::ReverseNormalHint => "反转所有顶点法线"@,
        TextKey::ConvertTextureBlbhHint => "将4096x4096纹理分割成64个较小的兼容文件"@,
        TextKey::ConvertSmdHint => "创建新的SMD文件，使用相应的新纹理文件"@,
        TextKey::CompileMdlHint => "创建QC文件并使用包含的studiomdl.exe编译模型"@,
        TextKey::ForceHint => "即使出现错误也继续处理。"@,
        TextKey::AddSuffixHint => "为转换后的模型名称添加\"_goldsrc\"后缀"@,
        TextKey::IgnoreConvertedHint => "忽略带有\"_goldsrc\"后缀的模型"@,
        TextKey::FlatshadeTextureHint => "纹理将具有平面着色标志\n建议开启以使纹理均匀照明"@,
        TextKey::VTFHint => "将纹理转换为VTF格式"@,
        TextKey::BMPHint => "将纹理转换为BMP格式"@,
        TextKey::SmdQcHint => "生成SMD和QC文件"@,
        TextKey::GoldSrcCompileHint => "为GoldSrc引擎编译模型"@,
        TextKey::ConvertSMDHint => "创建新的SMD文件，使用相应的新纹理文件"@,
        TextKey::CompileMDLHint => "创建QC文件并使用包含的studiomdl.exe编译模型"@,
        TextKey::SplitModelTitle => "分割模型标题"@,
        TextKey::SplitModelHint => "分割模型提示"@,
        TextKey::LoopWaveTitle => "循环波形标题"@,
        TextKey::LoopWaveHint => "循环波形提示"@,
        TextKey::LoopCheckboxHint => "循环复选框提示"@,
        TextKey::ResMakeTitle => "ResMake标题"@,
        TextKey::ResMakeHint => "ResMake提示"@,
        TextKey::WadCheckHint => "Wad检查提示"@,
        TextKey::DefaultResHint => "默认Res提示"@,
        TextKey::IgnoreMissingHint => "忽略缺失提示"@,
        TextKey::CreateLinkedWadHint => "创建链接Wad提示"@,
    }
}

/// The text for `key` in `lang`.
pub open spec fn text_of(key: TextKey, lang: Language) -> Seq<char> {
    match lang {
        Language::English => english_text_of(key),
        Language::Chinese => chinese_text_of(key),
    }
}

fn english_text(key: TextKey) -> (r: &'static str)
    ensures
        r@ == english_text_of(key),
{
    match key {
        TextKey::MenuNew => "New",
        TextKey::MenuOpen => "Open",
        TextKey::MenuOpenRecent => "Open Recent",
        TextKey::MenuSave => "Save (Ctrl+S)",
        TextKey::MenuSaveAs => "Save As",
        TextKey::MenuFind => "Find (Ctrl+F)",
        TextKey::MenuImport => "Import",
        TextKey::MenuExportAll => "Export All",
        TextKey::MenuOptions => "Options",
        TextKey::MenuClose => "Close",
        TextKey::DragDropHint => "Drag and drop a WAD file to start.\nYou can also drag and drop a BSP file.",
        TextKey::NoRecentFiles => "No recently opened",
        TextKey::FitTexture => "Fit texture",
        TextKey::ToUppercase => "To UPPERCASE",
        TextKey::ToLowercase => "To lowercase",
        TextKey::MapFile => "Map:",
        TextKey::Entity => "Entity",
        TextKey::Clear => "Clear",
        TextKey::Options => "Options:",
        TextKey::AutoPickupWads => "Auto pickup WADs",
        TextKey::ExportTextures => "Export textures",
        TextKey::UppercaseTexture => "Uppercase texture",
        TextKey::OnlyConvertMarked => "Only convert marked entity",
        TextKey::CenterModel => "Center the model",
        TextKey::Flatshade => "Flatshade",
        TextKey::ReverseNormal => "Reverse normal",
        TextKey::Run => "Run",
        TextKey::SMD => "SMD:",
        TextKey::Texture => "Texture:",
        TextKey::Add => "Add",
        TextKey::ConvertTexture => "Convert texture",
        TextKey::ConvertSMD => "Convert SMD",
        TextKey::CompileMDL => "Compile MDL",
        TextKey::File => "File:",
        TextKey::Folder => "Folder:",
        TextKey::Steps => "Steps:",
        TextKey::Decompile => "Decompile",
        TextKey::VTF => "VTF",
        TextKey::BMP => "BMP",
        TextKey::SmdQc => "Smd/Qc",
        TextKey::GoldSrcCompile => "GoldSrc Compile",
        TextKey::Force => "Force",
        TextKey::AddSuffix => "Add suffix",
        TextKey::IgnoreConverted => "Ignore converted",
        TextKey::Cancel => "Cancel",
        TextKey::Reset => "Reset",
        TextKey::TexturePerFace => "Texture per face:",
        TextKey::SkyboxSize => "Skybox size:",
        TextKey::OutputName => "Output name:",
        TextKey::ImageExtensions => "Image extensions",
        TextKey::Tiling => "Tiling",
        TextKey::Transparent => "Transparent",
        TextKey::ChangeFileName => "Change file name",
        TextKey::AddFiles => "Add file(s)",
        TextKey::AddFolders => "Add folder(s)",
        TextKey::ListOfItems => "List of items",
        TextKey::Idle => "Idle",
        TextKey::Running => "Running",
        TextKey::Done => "Done",
        TextKey::OK => "OK",
        TextKey::UVClampHint => "There is a problem with the edge where it is repeatedly filtered.\nWith this option, the polygon UV will not sample the edge by avoiding the edge.\nBy default, it will \"shrink\" the UV in by 1 pixel wherever applicable.",
        TextKey::TexturePerFaceHint => "How many textures should each skybox face have?\nIt should be a perfect square (such as 1, 4, 9, 16, ..)\nIf a model has more than 64 textures, it will be split into smaller models",
        TextKey::SkyboxSizeHint => "The size of the model",
        TextKey::ConvertTextureHint => "Converts most image format into compliant BMP.\nProcesses textures into suitable format for other settings.\nRecommended to leave it checked.",
        TextKey::FlatshadeHint => "Mark texture with flatshade flag.\nRecommeded to leave it checked for uniformly lit texture.",
        TextKey::FileExtensionsHint => "Converts only textures with specified file extension(s)\nSpace seperated",
        TextKey::TilingHint => "The dimensions of a texture will multiply by this number.",
        TextKey::TransparentHint => "The threshold to decide whether a texture is transparent.\nIf the dominant color of an image exceeds this threshold,\nit will be chosen as transparent mask.",
        TextKey::ChangeFileNameHint => "Prepend \"{\" if transparent\nAppend \"_<scalar>\" if tiling",
        TextKey::RemoveItemHint => "Right click to remove",
        TextKey::AutoPickupWadsHint => "Look for WAD files from \"wad\" key in the map file or worldbrush entity",
        TextKey::ExportTexturesHint => "Export textures into the map file folder OR studiomdl.exe folder if converting entity",
        TextKey::UppercaseTextureHint => "For .map exported from .jmf/rmf, the texture used inside source map file does not match WAD file.\nThis option is to coerce every texture in this process to be upper case.",
        TextKey::OnlyConvertMarkedHint => "Only convert brush entities {} and this would modify the original map file",
        TextKey::CenterModelHint => "The center of the model is the origin",
        TextKey::FlatshadeModelHint => "Model is flatshade",
        TextKey::ReverseNormalHint => "Reverses every vertex normals",
        TextKey::ConvertTextureBlbhHint => "Splits 4096x4096 texture into 64 smaller compliant files",
        TextKey::ConvertSmdHint => "Creates new SMD file that will use those new texture files accordingly",
        TextKey::CompileMdlHint => "Creates QC file and compiles the model with included studiomdl.exe",
        TextKey::ForceHint => "Continues with the process even when there is error.",
        TextKey::AddSuffixHint => "Adds suffix \"_goldsrc\" to the name of the converted model",
        TextKey::IgnoreConvertedHint => "Ignores models with \"_goldsrc\" suffix",
        TextKey::FlatshadeTextureHint => "Textures will have flat shade flags\nRecommended to have it on so textures will be uniformly lit",
        TextKey::VTFHint => "Convert textures to VTF format",
        TextKey::BMPHint => "Convert textures to BMP format",
        TextKey::SmdQcHint => "Generate SMD and QC files",
        TextKey::GoldSrcCompileHint => "Compile model for GoldSrc engine",
        TextKey::ConvertSMDHint => "Creates new SMD file that will use those new texture files accordingly",
        TextKey::CompileMDLHint => "Creates QC file and compiles the model with included studiomdl.exe",
        TextKey::SplitModelTitle => "Split Model Title",
        TextKey::SplitModelHint => "Split Model Hint",
        TextKey::LoopWaveTitle => "Loop Wave Title",
        TextKey::LoopWaveHint => "Loop Wave Hint",
        TextKey::LoopCheckboxHint => "Loop Checkbox Hint",
        TextKey::ResMakeTitle => "ResMake Title",
        TextKey::ResMakeHint => "ResMake Hint",
        TextKey::WadCheckHint => "Wad Check Hint",
        TextKey::DefaultResHint => "Default Res Hint",
        TextKey::IgnoreMissingHint => "Ignore Missing Hint",
        TextKey::CreateLinkedWadHint => "Create Linked Wad Hint",
    }
}

fn chinese_text(key: TextKey) -> (r: &'static str)
    ensures
        r@ == chinese_text_of(key),
{
    match key {
        TextKey::MenuNew => "新建",
        TextKey::MenuOpen => "打开",
        TextKey::MenuOpenRecent => "最近打开",
        TextKey::MenuSave => "保存 (Ctrl+S)",
        TextKey::MenuSaveAs => "另存为",
        TextKey::MenuFind => "查找 (Ctrl+F)",
        TextKey::MenuImport => "导入",
        TextKey::MenuExportAll => "导出全部",
        TextKey::MenuOptions => "选项",
        TextKey::MenuClose => "关闭",
        TextKey::DragDropHint => "拖放一个WAD文件来开始。\n你也可以拖放一个BSP文件。",
        TextKey::NoRecentFiles => "没有最近打开的文件",
        TextKey::FitTexture => "适应纹理",
        TextKey::ToUppercase => "转为大写",
        TextKey::ToLowercase => "转为小写",
        TextKey::MapFile => "地图:",
        TextKey::Entity => "实体",
        TextKey::Clear => "清除",
        TextKey::Options => "选项:",
        TextKey::AutoPickupWads => "自动获取WAD",
        TextKey::ExportTextures => "导出纹理",
        TextKey::UppercaseTexture => "大写纹理",
        TextKey::OnlyConvertMarked => "仅转换标记的实体",
        TextKey::CenterModel => "居中模型",
        TextKey::Flatshade => "平面着色",
        TextKey::ReverseNormal => "反转法线",
        TextKey::Run => "运行",
        TextKey::SMD => "SMD:",
        TextKey::Texture => "纹理:",
        TextKey::Add => "添加",
        TextKey::ConvertTexture => "转换纹理",
        TextKey::ConvertSMD => "转换SMD",
        TextKey::CompileMDL => "编译MDL",
        TextKey::File => "文件:",
        TextKey::Folder => "文件夹:",
        TextKey::Steps => "步骤:",
        TextKey::Decompile => "反编译",
        TextKey::VTF => "VTF",
        TextKey::BMP => "BMP",
        TextKey::SmdQc => "Smd/Qc",
        TextKey::GoldSrcCompile => "GoldSrc编译",
        TextKey::Force => "强制",
        TextKey::AddSuffix => "添加后缀",
        TextKey::IgnoreConverted => "忽略已转换",
        TextKey::Cancel => "取消",
        TextKey::Reset => "重置",
        TextKey::TexturePerFace => "每面纹理数:",
        TextKey::SkyboxSize => "天空盒大小:",
        TextKey::OutputName => "输出名称:",
        TextKey::ImageExtensions => "图片扩展名",
        TextKey::Tiling => "平铺",
        TextKey::Transparent => "透明",
        TextKey::ChangeFileName => "更改文件名",
        TextKey::AddFiles => "添加文件",
        TextKey::AddFolders => "添加文件夹",
        TextKey::ListOfItems => "项目列表",
        TextKey::Idle => "空闲",
        TextKey::Running => "运行中",
        TextKey::Done => "完成",
        TextKey::OK => "成功",
        TextKey::UVClampHint => "边缘处存在重复过滤的问题。\n启用此选项后，多边形UV将通过避开边缘来避免采样边缘。\n默认情况下，它会在适用的地方将UV向内收缩1个像素。",
        TextKey::TexturePerFaceHint => "每个天空盒面应该有多少纹理？\n应该是一个完全平方数(如1、4、9、16等)\n如果模型有超过64个纹理，它将被分割成更小的模型",
        TextKey::SkyboxSizeHint => "模型的大小",
        TextKey::ConvertTextureHint => "将大多数图像格式转换为兼容的BMP格式。\n根据其他设置处理纹理为合适的格式。\n建议保持选中状态。",
        TextKey::FlatshadeHint => "为纹理标记平面着色标志。\n建议保持选中状态以获得均匀的光照纹理。",
        TextKey::FileExtensionsHint => "仅转换指定文件扩展名的纹理\n用空格分隔",
        TextKey::TilingHint => "纹理的尺寸将乘以这个数字。",
        TextKey::TransparentHint => "决定纹理是否透明的阈值。\n如果图像的主要颜色超过此阈值，\n它将被选为透明遮罩。",
        TextKey::ChangeFileNameHint => "如果透明则在前面添加 \"{\"\n如果平铺则在后面添加 \"_<倍数>\"",
        TextKey::RemoveItemHint => "右键点击删除",
        TextKey::AutoPickupWadsHint => "从地图文件或世界画笔实体的\"wad\"键中查找WAD文件",
        TextKey::ExportTexturesHint => "将纹理导出到地图文件夹或转换实体时导出到studiomdl.exe文件夹",
        TextKey::UppercaseTextureHint => "对于从.jmf/rmf导出的.map文件，源地图文件中使用的纹理与WAD文件不匹配。\n此选项将在此过程中强制所有纹理为大写。",
        TextKey::OnlyConvertMarkedHint => "仅转换标记的画笔实体{}，这将修改原始地图文件",
        TextKey::CenterModelHint => "模型的中心在原点",
        TextKey::FlatshadeModelHint => "模型使用平面着色",
        TextKey::ReverseNormalHint => "反转所有顶点法线",
        TextKey::ConvertTextureBlbhHint => "将4096x4096纹理分割成64个较小的兼容文件",
        TextKey::ConvertSmdHint => "创建新的SMD文件，使用相应的新纹理文件",
        TextKey::CompileMdlHint => "创建QC文件并使用包含的studiomdl.exe编译模型",
        TextKey::ForceHint => "即使出现错误也继续处理。",
        TextKey::AddSuffixHint => "为转换后的模型名称添加\"_goldsrc\"后缀",
        TextKey::IgnoreConvertedHint => "忽略带有\"_goldsrc\"后缀的模型",
        TextKey::FlatshadeTextureHint => "纹理将具有平面着色标志\n建议开启以使纹理均匀照明",
        TextKey::VTFHint => "将纹理转换为VTF格式",
        TextKey::BMPHint => "将纹理转换为BMP格式",
        TextKey::SmdQcHint => "生成SMD和QC文件",
        TextKey::GoldSrcCompileHint => "为GoldSrc引擎编译模型",
        TextKey::ConvertSMDHint => "创建新的SMD文件，使用相应的新纹理文件",
        TextKey::CompileMDLHint => "创建QC文件并使用包含的studiomdl.exe编译模型",
        TextKey::SplitModelTitle => "分割模型标题",
        TextKey::SplitModelHint => "分割模型提示",
        TextKey::LoopWaveTitle => "循环波形标题",
        TextKey::LoopWaveHint => "循环波形提示",
        TextKey::LoopCheckboxHint => "循环复选框提示",
        TextKey::ResMakeTitle => "ResMake标题",
        TextKey::ResMakeHint => "ResMake提示",
        TextKey::WadCheckHint => "Wad检查提示",
        TextKey::DefaultResHint => "默认Res提示",
        TextKey::IgnoreMissingHint => "忽略缺失提示",
        TextKey::CreateLinkedWadHint => "创建链接Wad提示",
    }
}

/// Looks `key` up in `lang`'s column of the table.
pub fn get_text(key: TextKey, lang: Language) -> (r: &'static str)
    ensures
        r@ == text_of(key, lang),
{
    match lang {
        Language::English => english_text(key),
        Language::Chinese => chinese_text(key),
    }
}

} // verus!
